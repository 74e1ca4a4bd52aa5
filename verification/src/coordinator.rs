use vstd::prelude::*;

use crate::agent::{AgentHealth, AgentInfo, AgentInfoView, HealthView};
use crate::capability::{capability_views, meets_all, CapabilityView};
use crate::error::AgentError;
use crate::ids::{AgentId, TaskId};
use crate::manager::{covers_registry, info_views, report_ids, AgentManager};
use crate::scheduler::{
    failed_dependency_message, has_key, has_task, keys_of, put_entry, without_key,
    DependencyStatus, SchedulerStats, SchedulerView, TaskScheduler,
};
use crate::task::{texts, Task, TaskResult};

verus! {

/// How many tasks the coordinator hands out when work arrives.
#[derive(Debug, Clone, PartialEq, Eq, Structural)]
pub enum ExecutionStrategy {
    /// One task at a time, and only when nothing is running.
    Sequential,
    /// Up to `max_concurrent` tasks running at once.
    Parallel { max_concurrent: usize },
    /// Up to four tasks running at once.
    Pipeline,
    /// Up to eight tasks running at once.
    Collaborative,
}

impl Default for ExecutionStrategy {
    /// Parallel with at most four concurrent tasks.
    fn default() -> (s: ExecutionStrategy)
        ensures
            s == (ExecutionStrategy::Parallel { max_concurrent: 4 }),
    {
        ExecutionStrategy::Parallel { max_concurrent: 4 }
    }
}

/// `limit - active`, or zero when `active` reaches `limit`.
pub open spec fn free_slots(limit: int, active: int) -> nat {
    if limit > active {
        (limit - active) as nat
    } else {
        0
    }
}

/// How many tasks may be handed out while `active` tasks are executing.
pub open spec fn available_slots(s: ExecutionStrategy, active: int) -> nat {
    match s {
        ExecutionStrategy::Sequential => if active == 0 {
            1
        } else {
            0
        },
        ExecutionStrategy::Parallel { max_concurrent } => free_slots(max_concurrent as int, active),
        ExecutionStrategy::Pipeline => free_slots(4, active),
        ExecutionStrategy::Collaborative => free_slots(8, active),
    }
}

/// The state of a task as the coordinator reports it.
#[derive(Debug, Clone)]
pub enum TaskExecutionStatus {
    Pending,
    Running { agent_id: AgentId },
    Completed,
    Failed(String),
    Cancelled,
    Unknown,
}

/// Counters describing the whole system.
#[derive(Debug, Clone)]
pub struct SystemStats {
    pub total_agents: usize,
    pub active_executions: usize,
    pub scheduler_stats: SchedulerStats,
}

/// The outcome of a system health check.
#[derive(Debug, Clone)]
pub struct HealthCheckResult {
    pub overall_healthy: bool,
    pub total_agents: usize,
    pub healthy_agents: usize,
    pub unhealthy_agents: usize,
    pub system_stats: SystemStats,
}

/// A task handed to an agent. Whoever runs the coordinator executes it on that
/// agent and reports the result with `finish_execution`.
#[derive(Debug)]
pub struct Dispatch {
    pub task: Task,
    pub agent_id: AgentId,
}

/// Whether the agent may take a task requiring `required`: it is healthy and
/// offers every required capability.
pub open spec fn suitable(info: AgentInfoView, required: Seq<Seq<char>>) -> bool {
    &&& info.health is Healthy
    &&& meets_all(info.capabilities, required)
}

/// The first agent, in registration order, that may take a task requiring
/// `required`.
pub open spec fn first_suitable(agents: Seq<AgentInfoView>, required: Seq<Seq<char>>) -> Option<
    AgentId,
>
    decreases agents.len(),
{
    if agents.len() == 0 {
        None
    } else if suitable(agents[0], required) {
        Some(agents[0].id)
    } else {
        first_suitable(agents.drop_first(), required)
    }
}

/// Whether some agent (healthy or not) offers every capability in `required`.
pub open spec fn some_agent_capable(agents: Seq<AgentInfoView>, required: Seq<Seq<char>>) -> bool {
    exists|i: int| 0 <= i < agents.len() && meets_all(#[trigger] agents[i].capabilities, required)
}

/// The items joined with `sep` between consecutive ones.
pub open spec fn join(items: Seq<Seq<char>>, sep: Seq<char>) -> Seq<char>
    decreases items.len(),
{
    if items.len() == 0 {
        Seq::empty()
    } else if items.len() == 1 {
        items[0]
    } else {
        join(items.drop_last(), sep) + sep + items.last()
    }
}

/// The names of the capabilities of a set, in order.
pub open spec fn names_of(caps: Seq<CapabilityView>) -> Seq<Seq<char>> {
    caps.map_values(|c: CapabilityView| c.name)
}

/// The names of all capabilities of all agents, agent by agent.
pub open spec fn all_capability_names(agents: Seq<AgentInfoView>) -> Seq<Seq<char>>
    decreases agents.len(),
{
    if agents.len() == 0 {
        Seq::empty()
    } else {
        all_capability_names(agents.drop_last()) + names_of(agents.last().capabilities)
    }
}

/// Whether `e` reports that no agent meets `required`, listing the capabilities
/// in `available`.
pub open spec fn is_capability_mismatch(
    e: AgentError,
    required: Seq<Seq<char>>,
    available: Seq<Seq<char>>,
) -> bool {
    e matches AgentError::CapabilityMismatch { required: r, available: a } && r@ == join(
        required,
        ", "@,
    ) && texts(a@) == available
}

/// Whether a task requiring `required` passes validation: it requires nothing or
/// some registered agent offers all it requires.
pub open spec fn requirements_met(agents: Seq<AgentInfoView>, required: Seq<Seq<char>>) -> bool {
    required.len() == 0 || some_agent_capable(agents, required)
}

/// The state that handing out tasks works on.
pub ghost struct Flow {
    pub sched: SchedulerView,
    pub active: Seq<(TaskId, AgentId)>,
    pub outbox: Seq<(Task, AgentId)>,
}

/// How handing out tasks ended.
pub ghost enum RunOutcome {
    /// The slots were used up or no ready task was left.
    Done,
    /// A task was taken from the scheduler but no agent was suitable; the task is
    /// dropped.
    NoSuitableAgent(Seq<Seq<char>>),
}

/// Hands out up to `n` tasks: each step takes the next task from the scheduler
/// and gives it to the first suitable agent, recording it as running and active
/// and queueing it for execution.
pub open spec fn run_dispatch(agents: Seq<AgentInfoView>, f: Flow, n: nat) -> (Flow, RunOutcome)
    decreases n,
{
    if n == 0 {
        (f, RunOutcome::Done)
    } else {
        let (next, s2) = f.sched.take_next();
        match next {
            None => (Flow { sched: s2, ..f }, RunOutcome::Done),
            Some(t) => match first_suitable(agents, t.required()) {
                None => (Flow { sched: s2, ..f }, RunOutcome::NoSuitableAgent(t.required())),
                Some(a) => run_dispatch(
                    agents,
                    Flow {
                        sched: s2.after_running(t.id, a),
                        active: put_entry(f.active, (t.id, a)),
                        outbox: f.outbox.push((t, a)),
                    },
                    (n - 1) as nat,
                ),
            },
        }
    }
}

/// The agent recorded for task `id` in `s` (meaningful when `s` has an entry
/// for `id`; with distinct keys there is one).
pub open spec fn entry_agent(s: Seq<(TaskId, AgentId)>, id: TaskId) -> AgentId {
    s[choose|i: int| 0 <= i < s.len() && #[trigger] s[i].0 == id].1
}

/// With distinct keys, the agent recorded for the key at `i` is the one at `i`.
pub proof fn lemma_entry_agent(s: Seq<(TaskId, AgentId)>, i: int)
    requires
        keys_of(s).no_duplicates(),
        0 <= i < s.len(),
    ensures
        entry_agent(s, s[i].0) == s[i].1,
{
    let k = choose|j: int| 0 <= j < s.len() && #[trigger] s[j].0 == s[i].0;
    assert(keys_of(s)[k] == keys_of(s)[i]);
}

/// The number of reports in `s` that are not Healthy.
pub open spec fn unhealthy_count(s: Seq<(AgentId, HealthView)>) -> nat
    decreases s.len(),
{
    if s.len() == 0 {
        0
    } else {
        unhealthy_count(s.drop_last()) + if s.last().1 is Healthy {
            0nat
        } else {
            1nat
        }
    }
}

/// The views of a sequence of health reports.
pub open spec fn report_views(s: Seq<(AgentId, AgentHealth)>) -> Seq<(AgentId, HealthView)> {
    s.map_values(|e: (AgentId, AgentHealth)| (e.0, e.1@))
}

/// The views of the queued dispatches.
pub open spec fn dispatch_views(s: Seq<Dispatch>) -> Seq<(Task, AgentId)> {
    s.map_values(|d: Dispatch| (d.task, d.agent_id))
}

/// Mathematical state of the coordinator.
pub ghost struct CoordinatorView {
    pub strategy: ExecutionStrategy,
    /// Tasks being executed, with their agents.
    pub active: Seq<(TaskId, AgentId)>,
    /// Dispatches not yet taken by the caller.
    pub outbox: Seq<(Task, AgentId)>,
}

/// How a submission ended.
pub ghost enum Submission {
    /// The task was scheduled and tasks were handed out as the strategy allows.
    Accepted,
    /// No registered agent offers every capability the task requires.
    Unmet,
    /// The first dependency of the task that has not completed has failed.
    FailedDependency(TaskId),
    /// A task taken from the scheduler found no suitable agent; it is dropped.
    NoSuitableAgent(Seq<Seq<char>>),
}

/// The scheduler and coordinator after submitting `task`, and how the
/// submission ended: a task whose requirements no agent offers, or whose
/// dependency failed, changes nothing; otherwise it is scheduled and tasks are
/// handed out as the strategy allows.
pub open spec fn submission(
    agents: Seq<AgentInfoView>,
    s: SchedulerView,
    c: CoordinatorView,
    task: Task,
) -> (SchedulerView, CoordinatorView, Submission) {
    if !requirements_met(agents, task.required()) {
        (s, c, Submission::Unmet)
    } else {
        match s.status_of(task) {
            DependencyStatus::DependsOnFailed(d) => (s, c, Submission::FailedDependency(d)),
            _ => {
                let (f, out) = run_dispatch(
                    agents,
                    Flow { sched: s.after_schedule(task), active: c.active, outbox: c.outbox },
                    available_slots(c.strategy, c.active.len() as int),
                );
                (
                    f.sched,
                    CoordinatorView { active: f.active, outbox: f.outbox, ..c },
                    match out {
                        RunOutcome::Done => Submission::Accepted,
                        RunOutcome::NoSuitableAgent(req) => Submission::NoSuitableAgent(req),
                    },
                )
            },
        }
    }
}

/// What submitting `task` returns when the submission ended as `sub`: the
/// task's id, or the error that says why.
pub open spec fn submission_result(
    agents: Seq<AgentInfoView>,
    task: Task,
    sub: Submission,
    r: Result<TaskId, AgentError>,
) -> bool {
    match sub {
        Submission::Accepted => r == Ok::<TaskId, AgentError>(task.id),
        Submission::Unmet => r matches Err(e) && is_capability_mismatch(
            e,
            task.required(),
            all_capability_names(agents),
        ),
        Submission::FailedDependency(d) => r matches Err(AgentError::SchedulingError(m)) && m@
            == failed_dependency_message(task.id, d),
        Submission::NoSuitableAgent(req) => r matches Err(e) && is_capability_mismatch(
            e,
            req,
            Seq::empty(),
        ),
    }
}

/// The scheduler and coordinator after submitting `tasks` in order, stopping
/// after the first submission that is not accepted; with that task and how its
/// submission ended.
pub open spec fn batch_submission(
    agents: Seq<AgentInfoView>,
    s: SchedulerView,
    c: CoordinatorView,
    tasks: Seq<Task>,
) -> (SchedulerView, CoordinatorView, Option<(Task, Submission)>)
    decreases tasks.len(),
{
    if tasks.len() == 0 {
        (s, c, None)
    } else {
        let (s2, c2, sub) = submission(agents, s, c, tasks[0]);
        if sub is Accepted {
            batch_submission(agents, s2, c2, tasks.drop_first())
        } else {
            (s2, c2, Some((tasks[0], sub)))
        }
    }
}

/// Matches tasks from the scheduler to agents of the registry.
#[derive(Debug)]
pub struct Coordinator {
    execution_strategy: ExecutionStrategy,
    active_executions: Vec<(TaskId, AgentId)>,
    dispatched: Vec<Dispatch>,
}

fn join_texts(items: &Vec<String>, sep: &str) -> (r: String)
    ensures
        r@ == join(texts(items@), sep@),
{
    let ghost all = texts(items@);
    let mut r = String::new();
    let mut i: usize = 0;
    while i < items.len()
        invariant
            i <= items@.len(),
            all == texts(items@),
            r@ == join(all.take(i as int), sep@),
        decreases items.len() - i,
    {
        proof {
            assert(all.take(i + 1).drop_last() =~= all.take(i as int));
            assert(all.take(i + 1).last() == items@[i as int]@);
        }
        if i != 0 {
            r.append(sep);
        }
        r.append(items[i].as_str());
        proof {
            if i == 0 {
                assert(all.take(1).len() == 1);
                assert(r@ =~= join(all.take(1), sep@));
            } else {
                assert(r@ =~= join(all.take(i + 1), sep@));
            }
        }
        i = i + 1;
    }
    proof {
        assert(all.take(i as int) =~= all);
    }
    r
}

fn capability_names(agents: &Vec<AgentInfo>) -> (r: Vec<String>)
    ensures
        texts(r@) == all_capability_names(info_views(agents@)),
{
    let ghost infos = info_views(agents@);
    let mut r: Vec<String> = Vec::new();
    let mut i: usize = 0;
    while i < agents.len()
        invariant
            i <= agents@.len(),
            infos == info_views(agents@),
            texts(r@) == all_capability_names(infos.take(i as int)),
        decreases agents.len() - i,
    {
        let caps = agents[i].capabilities.iter();
        let ghost cv = capability_views(caps@);
        let ghost start = texts(r@);
        let mut j: usize = 0;
        while j < caps.len()
            invariant
                j <= caps@.len(),
                cv == capability_views(caps@),
                texts(r@) == start + names_of(cv).take(j as int),
            decreases caps.len() - j,
        {
            let ghost r0 = r@;
            let n = caps[j].name.clone();
            r.push(n);
            proof {
                assert(r@ =~= r0.push(n));
                assert(texts(r@) =~= texts(r0).push(n@));
                assert(names_of(cv).take(j + 1) =~= names_of(cv).take(j as int).push(cv[j as int].name));
            }
            j = j + 1;
        }
        proof {
            assert(names_of(cv).take(j as int) =~= names_of(cv));
            assert(infos.take(i + 1).drop_last() =~= infos.take(i as int));
            assert(infos.take(i + 1).last().capabilities == cv);
        }
        i = i + 1;
    }
    proof {
        assert(infos.take(i as int) =~= infos);
    }
    r
}

impl Coordinator {
    /// The mathematical state.
    pub closed spec fn view(&self) -> CoordinatorView {
        CoordinatorView {
            strategy: self.execution_strategy,
            active: self.active_executions@,
            outbox: dispatch_views(self.dispatched@),
        }
    }

    /// Each task is executed by at most one agent.
    pub open spec fn wf(&self) -> bool {
        keys_of(self.view().active).no_duplicates()
    }

    /// A coordinator with the default strategy, nothing active and nothing queued.
    pub fn new() -> (c: Coordinator)
        ensures
            c.wf(),
            c.view().strategy == (ExecutionStrategy::Parallel { max_concurrent: 4 }),
            c.view().active.len() == 0,
            c.view().outbox.len() == 0,
    {
        let c = Coordinator {
            execution_strategy: ExecutionStrategy::default(),
            active_executions: Vec::new(),
            dispatched: Vec::new(),
        };
        proof {
            assert(keys_of(c.view().active) =~= Seq::<TaskId>::empty());
            assert(c.view().outbox =~= Seq::<(Task, AgentId)>::empty());
        }
        c
    }

    /// Replaces the execution strategy.
    pub fn with_execution_strategy(self, strategy: ExecutionStrategy) -> (c: Coordinator)
        ensures
            c.view() == (CoordinatorView { strategy, ..self.view() }),
    {
        let mut c = self;
        c.execution_strategy = strategy;
        c
    }

    /// Checks that some registered agent (healthy or not) offers every capability
    /// the task requires; a task requiring nothing always passes. The refusal lists
    /// the requirements joined by ", " and every capability name of every agent.
    pub fn validate_task_requirements(&self, manager: &AgentManager, task: &Task) -> (r: Result<
        (),
        AgentError,
    >)
        ensures
            r is Ok <==> requirements_met(manager.view(), task.required()),
            r matches Err(e) ==> is_capability_mismatch(
                e,
                task.required(),
                all_capability_names(manager.view()),
            ),
    {
        if task.required_capabilities.len() == 0 {
            return Ok(());
        }
        let agents = manager.agents();
        let mut i: usize = 0;
        while i < agents.len()
            invariant
                i <= agents@.len(),
                info_views(agents@) == manager.view(),
                forall|j: int|
                    0 <= j < i ==> !meets_all(#[trigger] manager.view()[j].capabilities, task.required()),
            decreases agents.len() - i,
        {
            let req = task.required_capabilities.as_slice();
            proof {
                assert(texts(req@) == task.required());
                assert(manager.view()[i as int] == agents@[i as int]@);
            }
            if agents[i].capabilities.matches_requirements(req) {
                proof {
                    assert(meets_all(manager.view()[i as int].capabilities, task.required()));
                }
                return Ok(());
            }
            i = i + 1;
        }
        let required = join_texts(&task.required_capabilities, ", ");
        let available = capability_names(agents);
        Err(AgentError::CapabilityMismatch { required, available })
    }

    /// The first registered agent, in registration order, that is healthy and
    /// offers every capability the task requires; otherwise a capability mismatch
    /// listing the requirements and no capabilities.
    pub fn find_suitable_agent(&self, manager: &AgentManager, task: &Task) -> (r: Result<
        AgentId,
        AgentError,
    >)
        ensures
            first_suitable(manager.view(), task.required()) matches Some(a) ==> r == Ok::<
                AgentId,
                AgentError,
            >(a),
            first_suitable(manager.view(), task.required()) is None ==> (r matches Err(e)
                && is_capability_mismatch(e, task.required(), Seq::empty())),
    {
        let agents = manager.agents();
        let ghost all = manager.view();
        let mut i: usize = 0;
        proof {
            assert(all.skip(0) =~= all);
        }
        while i < agents.len()
            invariant
                i <= agents@.len(),
                info_views(agents@) == all,
                all == manager.view(),
                first_suitable(all, task.required()) == first_suitable(
                    all.skip(i as int),
                    task.required(),
                ),
            decreases agents.len() - i,
        {
            proof {
                assert(all.skip(i as int)[0] == agents@[i as int]@);
                assert(all.skip(i as int).drop_first() =~= all.skip(i + 1));
            }
            let info = &agents[i];
            let req = task.required_capabilities.as_slice();
            proof {
                assert(texts(req@) == task.required());
            }
            if info.health.is_healthy() && info.capabilities.matches_requirements(req) {
                proof {
                    let rest = all.skip(i as int);
                    assert(rest.len() > 0);
                    assert(rest[0] == agents@[i as int]@);
                    assert(suitable(rest[0], task.required()));
                    assert(first_suitable(rest, task.required()) == Some(info.id));
                }
                return Ok(info.id);
            }
            i = i + 1;
        }
        let required = join_texts(&task.required_capabilities, ", ");
        let available: Vec<String> = Vec::new();
        proof {
            assert(texts(available@) =~= Seq::<Seq<char>>::empty());
        }
        Err(AgentError::CapabilityMismatch { required, available })
    }

    fn available_slots(&self) -> (r: usize)
        ensures
            r == available_slots(self.view().strategy, self.view().active.len() as int),
    {
        let active = self.active_executions.len();
        match &self.execution_strategy {
            ExecutionStrategy::Sequential => if active == 0 {
                1
            } else {
                0
            },
            ExecutionStrategy::Parallel { max_concurrent } => max_concurrent.saturating_sub(active),
            ExecutionStrategy::Pipeline => 4usize.saturating_sub(active),
            ExecutionStrategy::Collaborative => 8usize.saturating_sub(active),
        }
    }

    fn put_active(&mut self, task_id: TaskId, agent_id: AgentId)
        requires
            old(self).wf(),
        ensures
            final(self).wf(),
            final(self).view() == (CoordinatorView {
                active: put_entry(old(self).view().active, (task_id, agent_id)),
                ..old(self).view()
            }),
    {
        let ghost before = self.view().active;
        let mut i: usize = 0;
        while i < self.active_executions.len()
            invariant
                i <= self.active_executions@.len(),
                self.active_executions@ == before,
                keys_of(before).no_duplicates(),
                self.view().strategy == old(self).view().strategy,
                self.view().outbox == old(self).view().outbox,
                before == old(self).view().active,
                forall|j: int| 0 <= j < i ==> #[trigger] before[j].0 != task_id,
            decreases self.active_executions.len() - i,
        {
            if self.active_executions[i].0 == task_id {
                self.active_executions.set(i, (task_id, agent_id));
                proof {
                    let keys = keys_of(before);
                    assert forall|j: int|
                        0 <= j < before.len() && #[trigger] before[j].0 == task_id implies j
                        == i by {
                        assert(keys[j] == keys[i as int]);
                    }
                    let c = choose|j: int|
                        0 <= j < before.len() && #[trigger] before[j].0 == task_id;
                    assert(c == i);
                    assert(keys_of(self.view().active) =~= keys);
                }
                return;
            }
            i = i + 1;
        }
        self.active_executions.push((task_id, agent_id));
        proof {
            assert(!has_key(before, task_id));
            let keys = keys_of(before);
            let nk = keys_of(self.view().active);
            assert(nk =~= keys.push(task_id));
            assert forall|a: int, b: int| 0 <= a < nk.len() && 0 <= b < nk.len() && a != b implies nk[a]
                != nk[b] by {
                if a < keys.len() && b < keys.len() {
                } else if a < keys.len() {
                    assert(nk[a] == before[a].0);
                } else {
                    assert(nk[b] == before[b].0);
                }
            }
        }
    }

    /// Gives `task` to the first suitable agent: it is recorded as running in the
    /// scheduler and as active here, and queued for execution. Without a suitable
    /// agent the task is dropped and the mismatch is reported.
    fn execute_single_task(
        &mut self,
        manager: &AgentManager,
        scheduler: &mut TaskScheduler,
        task: Task,
    ) -> (r: Result<(), AgentError>)
        requires
            old(self).wf(),
            old(scheduler).wf(),
        ensures
            final(self).wf(),
            final(scheduler).wf(),
            final(self).view().strategy == old(self).view().strategy,
            match first_suitable(manager.view(), task.required()) {
                Some(a) => {
                    &&& r is Ok
                    &&& final(scheduler).view() == old(scheduler).view().after_running(task.id, a)
                    &&& final(self).view().active == put_entry(old(self).view().active, (task.id, a))
                    &&& final(self).view().outbox == old(self).view().outbox.push((task, a))
                },
                None => {
                    &&& r matches Err(e) && is_capability_mismatch(e, task.required(), Seq::empty())
                    &&& final(scheduler).view() == old(scheduler).view()
                    &&& final(self).view() == old(self).view()
                },
            },
    {
        let task_id = task.id;
        let agent_id = match self.find_suitable_agent(manager, &task) {
            Ok(a) => a,
            Err(e) => return Err(e),
        };
        let copy = task.clone();
        let _ = scheduler.mark_task_running(copy, agent_id);
        self.put_active(task_id, agent_id);
        let ghost outbox = self.view().outbox;
        self.dispatched.push(Dispatch { task, agent_id });
        proof {
            assert(self.view().outbox =~= outbox.push((task, agent_id)));
        }
        Ok(())
    }

    /// Hands out tasks according to the strategy: as many as there are free slots,
    /// stopping when no ready task is left or a task finds no suitable agent.
    fn try_execute_pending_tasks(&mut self, manager: &AgentManager, scheduler: &mut TaskScheduler) -> (r:
        Result<(), AgentError>)
        requires
            old(self).wf(),
            old(scheduler).wf(),
        ensures
            final(self).wf(),
            final(scheduler).wf(),
            final(self).view().strategy == old(self).view().strategy,
            ({
                let (f, out) = run_dispatch(
                    manager.view(),
                    Flow {
                        sched: old(scheduler).view(),
                        active: old(self).view().active,
                        outbox: old(self).view().outbox,
                    },
                    available_slots(old(self).view().strategy, old(self).view().active.len() as int),
                );
                &&& final(scheduler).view() == f.sched
                &&& final(self).view().active == f.active
                &&& final(self).view().outbox == f.outbox
                &&& match out {
                    RunOutcome::Done => r is Ok,
                    RunOutcome::NoSuitableAgent(req) => r matches Err(e) && is_capability_mismatch(
                        e,
                        req,
                        Seq::empty(),
                    ),
                }
            }),
    {
        let slots = self.available_slots();
        let ghost agents = manager.view();
        let ghost start = Flow {
            sched: scheduler.view(),
            active: self.view().active,
            outbox: self.view().outbox,
        };
        let mut k: usize = 0;
        while k < slots
            invariant
                self.wf(),
                scheduler.wf(),
                k <= slots,
                self.view().strategy == old(self).view().strategy,
                agents == manager.view(),
                start == (Flow {
                    sched: old(scheduler).view(),
                    active: old(self).view().active,
                    outbox: old(self).view().outbox,
                }),
                slots == available_slots(old(self).view().strategy, old(self).view().active.len() as int),
                run_dispatch(agents, start, slots as nat) == run_dispatch(
                    agents,
                    Flow { sched: scheduler.view(), active: self.view().active, outbox: self.view().outbox },
                    (slots - k) as nat,
                ),
            decreases slots - k,
        {
            let ghost f = Flow {
                sched: scheduler.view(),
                active: self.view().active,
                outbox: self.view().outbox,
            };
            match scheduler.get_next_task() {
                None => {
                    proof {
                        assert(f.sched.take_next() == (None::<Task>, scheduler.view()));
                        assert(run_dispatch(agents, f, (slots - k) as nat) == (
                            Flow { sched: scheduler.view(), ..f },
                            RunOutcome::Done,
                        ));
                    }
                    return Ok(());
                },
                Some(task) => {
                    let ghost s2 = scheduler.view();
                    let ghost t = task;
                    let res = self.execute_single_task(manager, scheduler, task);
                    match res {
                        Ok(()) => {},
                        Err(e) => {
                            proof {
                                assert(f.sched.take_next() == (Some(t), s2));
                                assert(first_suitable(agents, t.required()) is None);
                                assert(run_dispatch(agents, f, (slots - k) as nat) == (
                                    Flow { sched: s2, ..f },
                                    RunOutcome::NoSuitableAgent(t.required()),
                                ));
                            }
                            return Err(e);
                        },
                    }
                },
            }
            k = k + 1;
        }
        Ok(())
    }

    /// Submits a task: validates its requirements, schedules it, then hands out
    /// tasks according to the strategy. The task's id is returned when all of this
    /// succeeds; tasks handed out before a failure stay handed out.
    pub fn submit_task(&mut self, manager: &AgentManager, scheduler: &mut TaskScheduler, task: Task) -> (r:
        Result<TaskId, AgentError>)
        requires
            old(self).wf(),
            old(scheduler).wf(),
        ensures
            final(self).wf(),
            final(scheduler).wf(),
            ({
                let (s2, c2, sub) = submission(manager.view(), old(scheduler).view(), old(self).view(), task);
                &&& final(scheduler).view() == s2
                &&& final(self).view() == c2
                &&& submission_result(manager.view(), task, sub, r)
            }),
    {
        let task_id = task.id;
        self.validate_task_requirements(manager, &task)?;
        scheduler.schedule_task(task)?;
        self.try_execute_pending_tasks(manager, scheduler)?;
        Ok(task_id)
    }

    /// Submits the tasks in order, stopping at the first that fails and returning
    /// its error; returns the ids of all when every submission succeeds.
    pub fn submit_task_batch(
        &mut self,
        manager: &AgentManager,
        scheduler: &mut TaskScheduler,
        tasks: Vec<Task>,
    ) -> (r: Result<Vec<TaskId>, AgentError>)
        requires
            old(self).wf(),
            old(scheduler).wf(),
        ensures
            final(self).wf(),
            final(scheduler).wf(),
            ({
                let (s2, c2, stop) = batch_submission(
                    manager.view(),
                    old(scheduler).view(),
                    old(self).view(),
                    tasks@,
                );
                &&& final(scheduler).view() == s2
                &&& final(self).view() == c2
                &&& match stop {
                    None => r matches Ok(ids) && ids@ == tasks@.map_values(|t: Task| t.id),
                    Some((t, sub)) => match r {
                        Ok(_) => false,
                        Err(e) => submission_result(manager.view(), t, sub, Err(e)),
                    },
                }
            }),
    {
        let ghost all = tasks@;
        let ghost agents = manager.view();
        let ghost goal = batch_submission(agents, scheduler.view(), self.view(), all);
        let mut rest = tasks;
        let mut ids: Vec<TaskId> = Vec::new();
        let mut failure: Option<AgentError> = None;
        while rest.len() > 0 && failure.is_none()
            invariant
                self.wf(),
                scheduler.wf(),
                agents == manager.view(),
                rest@.len() <= all.len(),
                goal == batch_submission(agents, old(scheduler).view(), old(self).view(), all),
                failure is None ==> {
                    &&& rest@ == all.skip(all.len() - rest@.len())
                    &&& ids@ == all.take(all.len() - rest@.len()).map_values(|t: Task| t.id)
                    &&& goal == batch_submission(agents, scheduler.view(), self.view(), rest@)
                },
                failure matches Some(e) ==> ({
                    let (s2, c2, stop) = goal;
                    &&& scheduler.view() == s2
                    &&& self.view() == c2
                    &&& stop matches Some((t, sub)) && submission_result(agents, t, sub, Err(e))
                }),
            decreases rest.len(),
        {
            let ghost k = all.len() - rest@.len();
            let ghost before = rest@;
            let task = rest.remove(0);
            proof {
                assert(rest@ =~= all.skip(k + 1));
                assert(before.drop_first() =~= rest@);
            }
            let ghost sb = scheduler.view();
            let ghost cb = self.view();
            let ghost t = task;
            proof {
                assert(before[0] == t);
            }
            match self.submit_task(manager, scheduler, task) {
                Ok(id) => {
                    ids.push(id);
                    proof {
                        assert(all.take(k + 1) =~= all.take(k).push(all[k]));
                        assert(ids@ =~= all.take(k + 1).map_values(|t: Task| t.id));
                    }
                },
                Err(e) => {
                    proof {
                        let (s2, c2, sub) = submission(agents, sb, cb, t);
                        assert(!(sub is Accepted));
                        assert(batch_submission(agents, sb, cb, before) == (s2, c2, Some((t, sub))));
                    }
                    failure = Some(e);
                },
            }
        }
        match failure {
            Some(e) => Err(e),
            None => {
                proof {
                    assert(rest@.len() == 0);
                    assert(all.take(all.len() as int) =~= all);
                }
                Ok(ids)
            },
        }
    }

    /// Takes the queued dispatches, in the order they were made.
    pub fn take_dispatches(&mut self) -> (r: Vec<Dispatch>)
        requires
            old(self).wf(),
        ensures
            final(self).wf(),
            dispatch_views(r@) == old(self).view().outbox,
            final(self).view() == (CoordinatorView { outbox: Seq::empty(), ..old(self).view() }),
    {
        let mut r: Vec<Dispatch> = Vec::new();
        std::mem::swap(&mut r, &mut self.dispatched);
        proof {
            assert(self.view().outbox =~= Seq::<(Task, AgentId)>::empty());
        }
        r
    }

    /// Records the result of executing task `task_id`: it stops being active and
    /// the scheduler records it as completed when the result is a success, and as
    /// failed otherwise (an `Err` carries the error's text).
    pub fn finish_execution(
        &mut self,
        scheduler: &mut TaskScheduler,
        task_id: TaskId,
        result: Result<TaskResult, String>,
    )
        requires
            old(self).wf(),
            old(scheduler).wf(),
        ensures
            final(self).wf(),
            final(scheduler).wf(),
            final(self).view() == (CoordinatorView {
                active: without_key(old(self).view().active, task_id),
                ..old(self).view()
            }),
            final(scheduler).view() == if result matches Ok(tr) && tr.status is Completed {
                old(scheduler).view().after_completed(task_id)
            } else {
                old(scheduler).view().after_failed(task_id)
            },
    {
        self.remove_active(task_id);
        match result {
            Ok(task_result) => {
                if task_result.is_success() {
                    let _ = scheduler.mark_task_completed(task_id);
                } else {
                    let message = match task_result.error {
                        Some(m) => m,
                        None => String::from_str("Unknown error"),
                    };
                    let _ = scheduler.mark_task_failed(task_id, message.as_str());
                }
            },
            Err(e) => {
                let _ = scheduler.mark_task_failed(task_id, e.as_str());
            },
        }
    }

    fn remove_active(&mut self, task_id: TaskId)
        requires
            old(self).wf(),
        ensures
            final(self).wf(),
            final(self).view() == (CoordinatorView {
                active: without_key(old(self).view().active, task_id),
                ..old(self).view()
            }),
    {
        let ghost before = self.view().active;
        let mut i: usize = 0;
        while i < self.active_executions.len()
            invariant
                i <= self.active_executions@.len(),
                self.active_executions@ == before,
                keys_of(before).no_duplicates(),
                self.view().strategy == old(self).view().strategy,
                self.view().outbox == old(self).view().outbox,
                before == old(self).view().active,
                forall|j: int| 0 <= j < i ==> #[trigger] before[j].0 != task_id,
            decreases self.active_executions.len() - i,
        {
            if self.active_executions[i].0 == task_id {
                let _ = self.active_executions.remove(i);
                proof {
                    crate::scheduler::lemma_without_key_remove(before, i as int);
                    crate::scheduler::lemma_keys_remove(before, i as int);
                    assert(self.view().active =~= before.remove(i as int));
                }
                return;
            }
            i = i + 1;
        }
        proof {
            crate::scheduler::lemma_without_key_absent(before, task_id);
        }
    }

    /// Where task `task_id` runs: the agent executing it here, else the agent the
    /// scheduler records it as running on, else Unknown.
    pub fn get_task_status(&self, scheduler: &TaskScheduler, task_id: TaskId) -> (r: Result<
        TaskExecutionStatus,
        AgentError,
    >)
        requires
            self.wf(),
            scheduler.wf(),
        ensures
            r is Ok,
            has_key(self.view().active, task_id) ==> (r matches Ok(
                TaskExecutionStatus::Running { agent_id },
            ) && agent_id == entry_agent(self.view().active, task_id)),
            !has_key(self.view().active, task_id) && has_key(scheduler.view().running, task_id)
                ==> (r matches Ok(TaskExecutionStatus::Running { agent_id }) && agent_id
                == entry_agent(scheduler.view().running, task_id)),
            !has_key(self.view().active, task_id) && !has_key(scheduler.view().running, task_id)
                ==> r matches Ok(TaskExecutionStatus::Unknown),
    {
        let mut i: usize = 0;
        while i < self.active_executions.len()
            invariant
                i <= self.active_executions@.len(),
                self.wf(),
                forall|j: int| 0 <= j < i ==> #[trigger] self.view().active[j].0 != task_id,
            decreases self.active_executions.len() - i,
        {
            if self.active_executions[i].0 == task_id {
                proof {
                    lemma_entry_agent(self.view().active, i as int);
                }
                return Ok(TaskExecutionStatus::Running { agent_id: self.active_executions[i].1 });
            }
            i = i + 1;
        }
        proof {
            assert(!has_key(self.view().active, task_id));
        }
        let running = scheduler.get_running_tasks();
        let mut j: usize = 0;
        while j < running.len()
            invariant
                j <= running@.len(),
                scheduler.wf(),
                !has_key(self.view().active, task_id),
                running@.len() == scheduler.view().running.len(),
                forall|m: int|
                    0 <= m < running@.len() ==> (#[trigger] running@[m].0, running@[m].1)
                        == scheduler.view().running[m],
                forall|m: int| 0 <= m < j ==> #[trigger] scheduler.view().running[m].0 != task_id,
            decreases running.len() - j,
        {
            if running[j].0 == task_id {
                proof {
                    assert((running@[j as int].0, running@[j as int].1) == scheduler.view().running[j as int]);
                    lemma_entry_agent(scheduler.view().running, j as int);
                }
                return Ok(TaskExecutionStatus::Running { agent_id: running[j].1 });
            }
            proof {
                assert((running@[j as int].0, running@[j as int].1) == scheduler.view().running[j as int]);
            }
            j = j + 1;
        }
        Ok(TaskExecutionStatus::Unknown)
    }

    /// Cancels a ready task; tasks waiting for their dependencies and tasks
    /// already handed out are not cancelled. Tells whether a task was cancelled.
    pub fn cancel_task(&self, scheduler: &mut TaskScheduler, task_id: TaskId) -> (r: Result<
        bool,
        AgentError,
    >)
        requires
            old(scheduler).wf(),
        ensures
            final(scheduler).wf(),
            final(scheduler).view() == old(scheduler).view().after_cancel(task_id),
            r == Ok::<bool, AgentError>(has_task(old(scheduler).view().pending, task_id)),
    {
        let cancelled = scheduler.cancel_task(task_id)?;
        if cancelled {
            return Ok(true);
        }
        Ok(false)
    }

    /// The number of agents, of active executions, and the scheduler's counters.
    pub fn get_system_stats(&self, manager: &AgentManager, scheduler: &TaskScheduler) -> (r:
        SystemStats)
        ensures
            r.total_agents == manager.view().len(),
            r.active_executions == self.view().active.len(),
            r.scheduler_stats.pending_count == scheduler.view().pending.len(),
            r.scheduler_stats.waiting_count == scheduler.view().waiting.len(),
            r.scheduler_stats.running_count == scheduler.view().running.len(),
            r.scheduler_stats.completed_count == scheduler.view().completed.len(),
            r.scheduler_stats.failed_count == scheduler.view().failed.len(),
    {
        let scheduler_stats = scheduler.get_stats();
        SystemStats {
            total_agents: manager.agent_count(),
            active_executions: self.active_executions.len(),
            scheduler_stats,
        }
    }

    /// Summarises the health reports of the registered agents, one per agent:
    /// the system is healthy when no report is other than Healthy.
    pub fn health_check(
        &self,
        manager: &AgentManager,
        scheduler: &TaskScheduler,
        agent_health: &Vec<(AgentId, AgentHealth)>,
    ) -> (r: HealthCheckResult)
        requires
            covers_registry(manager.view(), report_ids(agent_health@)),
        ensures
            r.unhealthy_agents == unhealthy_count(report_views(agent_health@)),
            r.total_agents == manager.view().len(),
            r.total_agents == agent_health@.len(),
            r.healthy_agents + r.unhealthy_agents == r.total_agents,
            r.healthy_agents == agent_health@.len() - unhealthy_count(report_views(agent_health@)),
            r.overall_healthy == (unhealthy_count(report_views(agent_health@)) == 0),
            r.system_stats.total_agents == manager.view().len(),
            r.system_stats.active_executions == self.view().active.len(),
            r.system_stats.scheduler_stats.pending_count == scheduler.view().pending.len(),
            r.system_stats.scheduler_stats.waiting_count == scheduler.view().waiting.len(),
            r.system_stats.scheduler_stats.running_count == scheduler.view().running.len(),
            r.system_stats.scheduler_stats.completed_count == scheduler.view().completed.len(),
            r.system_stats.scheduler_stats.failed_count == scheduler.view().failed.len(),
    {
        let ghost all = report_views(agent_health@);
        let mut unhealthy: usize = 0;
        let mut i: usize = 0;
        while i < agent_health.len()
            invariant
                i <= agent_health@.len(),
                all == report_views(agent_health@),
                unhealthy == unhealthy_count(all.take(i as int)),
                unhealthy <= i,
            decreases agent_health.len() - i,
        {
            proof {
                assert(all.take(i + 1).drop_last() =~= all.take(i as int));
                assert(all.take(i + 1).last() == all[i as int]);
            }
            if !agent_health[i].1.is_healthy() {
                unhealthy = unhealthy + 1;
            }
            i = i + 1;
        }
        proof {
            assert(all.take(i as int) =~= all);
        }
        let system_stats = self.get_system_stats(manager, scheduler);
        HealthCheckResult {
            overall_healthy: unhealthy == 0,
            total_agents: agent_health.len(),
            healthy_agents: agent_health.len() - unhealthy,
            unhealthy_agents: unhealthy,
            system_stats,
        }
    }
}

impl Default for Coordinator {
    fn default() -> (c: Coordinator)
        ensures
            c.wf(),
            c.view().strategy == (ExecutionStrategy::Parallel { max_concurrent: 4 }),
            c.view().active.len() == 0,
            c.view().outbox.len() == 0,
    {
        Coordinator::new()
    }
}

} // verus!
