//! Properties that hold across the operations of the library.
use vstd::prelude::*;

use crate::agent::{AgentInfoView, AgentTypeView, HealthView};
use crate::capability::{add_one, has_name, meets_all, CapabilityView};
use crate::coordinator::{
    available_slots, first_suitable, requirements_met, run_dispatch, submission, suitable,
    CoordinatorView, ExecutionStrategy, Flow, RunOutcome,
};
use crate::ids::{AgentId, TaskId};
use crate::manager::{
    agent_ids, covers_registry, has_agent_id, lemma_without_agent_absent, of_type, with_capability,
    without_agent,
};
use crate::scheduler::{
    best_index, blocked_part, dependency_status, dependency_status_from, has_key, has_task,
    lemma_best_index, ready_part, without_id, without_key, DependencyStatus, SchedulerView,
    add_id,
};
use crate::agents::{text_param, texts_param};
use crate::agents::test_agent::{
    framework_or_default, generated_tests_text, python_test_module, rust_test_module,
    test_generation_result, TestGeneration,
};
use crate::agents::text::replace_all;
use crate::task::{param_text, param_texts, priority_level, ParamValue, Task};

verus! {

/// After a capability is added, the set has a capability of that name.
pub proof fn law_added_capability_is_found(caps: Seq<CapabilityView>, c: CapabilityView)
    ensures
        has_name(add_one(caps, c), c.name),
{
    let r = add_one(caps, c);
    if caps.contains(c) {
        let i = choose|i: int| 0 <= i < caps.len() && caps[i] == c;
        assert(r[i].name == c.name);
    } else {
        assert(r[caps.len() as int].name == c.name);
    }
}

/// Adding the same capability twice is the same as adding it once.
pub proof fn law_add_capability_idempotent(caps: Seq<CapabilityView>, c: CapabilityView)
    ensures
        add_one(add_one(caps, c), c) == add_one(caps, c),
{
    let r = add_one(caps, c);
    if !caps.contains(c) {
        assert(r[caps.len() as int] == c);
        assert(r.contains(c));
    }
}

/// Adding a capability never loses a requirement that was met.
pub proof fn law_add_capability_keeps_matches(
    caps: Seq<CapabilityView>,
    c: CapabilityView,
    required: Seq<Seq<char>>,
)
    requires
        meets_all(caps, required),
    ensures
        meets_all(add_one(caps, c), required),
{
    let r = add_one(caps, c);
    assert forall|k: int| 0 <= k < required.len() implies has_name(r, #[trigger] required[k]) by {
        assert(has_name(caps, required[k]));
        let i = choose|i: int| 0 <= i < caps.len() && #[trigger] caps[i].name == required[k];
        assert(r[i] == caps[i]);
    }
}

/// Every capability set meets an empty list of requirements.
pub proof fn law_no_requirements_always_met(caps: Seq<CapabilityView>)
    ensures
        meets_all(caps, Seq::empty()),
{
}

/// The status of a dependency list is Satisfied exactly when every dependency
/// has completed and, before each, none has failed; in particular every
/// dependency of a satisfied list has completed.
pub proof fn lemma_satisfied_all_completed(
    deps: Seq<TaskId>,
    completed: Seq<TaskId>,
    failed: Seq<TaskId>,
    k: int,
)
    requires
        0 <= k <= deps.len(),
        dependency_status_from(deps, completed, failed, k) == DependencyStatus::Satisfied,
    ensures
        forall|j: int| k <= j < deps.len() ==> completed.contains(#[trigger] deps[j]),
    decreases deps.len() - k,
{
    if k < deps.len() {
        lemma_satisfied_all_completed(deps, completed, failed, k + 1);
    }
}

/// A task is handed out only when every one of its dependencies has completed.
pub proof fn law_handed_out_task_dependencies_completed(v: SchedulerView)
    ensures
        v.take_next().0 matches Some(t) ==> forall|j: int|
            0 <= j < t.dependencies@.len() ==> v.completed.contains(#[trigger] t.dependencies@[j]),
{
    if v.take_next().0 is Some {
        let t = v.take_next().0->0;
        lemma_satisfied_all_completed(t.dependencies@, v.completed, v.failed, 0);
    }
}

/// A task handed out has the highest priority among the ready tasks, and every
/// ready task scheduled before it has a strictly lower priority; the task leaves
/// the ready tasks.
pub proof fn law_highest_priority_first(v: SchedulerView)
    ensures
        v.take_next().0 matches Some(t) ==> {
            &&& forall|j: int|
                0 <= j < v.pending.len() ==> priority_level(#[trigger] v.pending[j].priority)
                    <= priority_level(t.priority)
            &&& forall|j: int|
                0 <= j < best_index(v.pending) ==> priority_level(#[trigger] v.pending[j].priority)
                    < priority_level(t.priority)
            &&& t == v.pending[best_index(v.pending)]
            &&& v.take_next().1.pending == v.pending.remove(best_index(v.pending))
        },
{
    if v.pending.len() > 0 {
        lemma_best_index(v.pending);
    }
}

/// Scheduling a task without dependencies makes it ready, after the tasks that
/// were ready already.
pub proof fn law_independent_task_is_ready(v: SchedulerView, t: Task)
    requires
        t.dependencies@.len() == 0,
    ensures
        v.after_schedule(t).pending == v.pending.push(t),
        v.after_schedule(t).waiting == v.waiting,
{
}

/// On an otherwise empty set of ready tasks, a task scheduled without
/// dependencies is the next one handed out.
pub proof fn law_schedule_then_next(v: SchedulerView, t: Task)
    requires
        t.dependencies@.len() == 0,
        v.pending.len() == 0,
    ensures
        v.after_schedule(t).take_next().0 == Some(t),
        v.after_schedule(t).take_next().1.pending.len() == 0,
{
    let w = v.after_schedule(t);
    assert(w.pending =~= seq![t]);
    assert(best_index(w.pending) == 0);
    assert(w.pending.remove(0) =~= Seq::<Task>::empty());
}

/// Membership in the tasks released or kept waiting.
pub proof fn lemma_ready_blocked_parts(
    ws: Seq<Task>,
    completed: Seq<TaskId>,
    failed: Seq<TaskId>,
    i: int,
)
    requires
        0 <= i < ws.len(),
    ensures
        dependency_status(ws[i].dependencies@, completed, failed) == DependencyStatus::Satisfied
            ==> ready_part(ws, completed, failed).contains(ws[i]),
        dependency_status(ws[i].dependencies@, completed, failed) != DependencyStatus::Satisfied
            ==> blocked_part(ws, completed, failed).contains(ws[i]),
    decreases ws.len(),
{
    let d = ws.drop_last();
    if i < ws.len() - 1 {
        assert(d[i] == ws[i]);
        lemma_ready_blocked_parts(d, completed, failed, i);
        let r = ready_part(d, completed, failed);
        let b = blocked_part(d, completed, failed);
        if r.contains(ws[i]) {
            let j = choose|j: int| 0 <= j < r.len() && r[j] == ws[i];
            assert(ready_part(ws, completed, failed)[j] == ws[i]);
        }
        if b.contains(ws[i]) {
            let j = choose|j: int| 0 <= j < b.len() && b[j] == ws[i];
            assert(blocked_part(ws, completed, failed)[j] == ws[i]);
        }
    } else {
        let r = ready_part(d, completed, failed);
        let b = blocked_part(d, completed, failed);
        if dependency_status(ws[i].dependencies@, completed, failed) == DependencyStatus::Satisfied {
            assert(ready_part(ws, completed, failed)[r.len() as int] == ws[i]);
        } else {
            assert(blocked_part(ws, completed, failed)[b.len() as int] == ws[i]);
        }
    }
}

/// When a task completes, every waiting task whose dependencies are then
/// satisfied becomes ready, and every other waiting task keeps waiting; the
/// completed task is recorded and no longer running.
pub proof fn law_completion_releases_dependents(v: SchedulerView, id: TaskId, i: int)
    requires
        0 <= i < v.waiting.len(),
    ensures
        v.after_completed(id).completed.contains(id),
        !has_key(v.after_completed(id).running, id),
        v.after_completed(id).status_of(v.waiting[i]) == DependencyStatus::Satisfied
            ==> v.after_completed(id).pending.contains(v.waiting[i]),
        v.after_completed(id).status_of(v.waiting[i]) != DependencyStatus::Satisfied
            ==> v.after_completed(id).waiting.contains(v.waiting[i]),
{
    let c = add_id(v.completed, id);
    if !v.completed.contains(id) {
        assert(c[v.completed.len() as int] == id);
    }
    lemma_ready_blocked_parts(v.waiting, c, v.failed, i);
    let r = ready_part(v.waiting, c, v.failed);
    if r.contains(v.waiting[i]) {
        let j = choose|j: int| 0 <= j < r.len() && r[j] == v.waiting[i];
        assert((v.pending + r)[v.pending.len() + j] == v.waiting[i]);
    }
    lemma_without_key_no_key(v.running, id);
}

/// Removing the entries for a key leaves none.
pub proof fn lemma_without_key_no_key(s: Seq<(TaskId, AgentId)>, id: TaskId)
    ensures
        !has_key(without_key(s, id), id),
    decreases s.len(),
{
    if s.len() > 0 {
        lemma_without_key_no_key(s.drop_last(), id);
        let r = without_key(s.drop_last(), id);
        if s.last().0 != id {
            let w = r.push(s.last());
            assert forall|j: int| 0 <= j < w.len() implies #[trigger] w[j].0 != id by {
                if j < r.len() {
                    assert(w[j] == r[j]);
                }
            }
        }
    }
}

/// Removing the tasks with an id leaves none with that id.
pub proof fn lemma_without_id_no_task(ts: Seq<Task>, id: TaskId)
    ensures
        !has_task(without_id(ts, id), id),
    decreases ts.len(),
{
    if ts.len() > 0 {
        lemma_without_id_no_task(ts.drop_last(), id);
        let r = without_id(ts.drop_last(), id);
        if ts.last().id != id {
            let w = r.push(ts.last());
            assert forall|j: int| 0 <= j < w.len() implies #[trigger] w[j].id != id by {
                if j < r.len() {
                    assert(w[j] == r[j]);
                }
            }
        }
    }
}

/// After cancelling a task, no ready task has its id; every other ready task
/// stays ready, and waiting, running, completed and failed tasks are untouched.
pub proof fn law_cancelled_task_is_gone(v: SchedulerView, id: TaskId, i: int)
    requires
        0 <= i < v.pending.len(),
        v.pending[i].id != id,
    ensures
        !has_task(v.after_cancel(id).pending, id),
        v.after_cancel(id).pending.contains(v.pending[i]),
        v.after_cancel(id).waiting == v.waiting,
        v.after_cancel(id).running == v.running,
        v.after_cancel(id).completed == v.completed,
        v.after_cancel(id).failed == v.failed,
{
    lemma_without_id_no_task(v.pending, id);
    lemma_without_id_keeps(v.pending, id, i);
}

/// Removing the tasks with an id keeps every task with another id.
pub proof fn lemma_without_id_keeps(ts: Seq<Task>, id: TaskId, i: int)
    requires
        0 <= i < ts.len(),
        ts[i].id != id,
    ensures
        without_id(ts, id).contains(ts[i]),
    decreases ts.len(),
{
    let d = ts.drop_last();
    if i < ts.len() - 1 {
        assert(d[i] == ts[i]);
        lemma_without_id_keeps(d, id, i);
        let r = without_id(d, id);
        let j = choose|j: int| 0 <= j < r.len() && r[j] == ts[i];
        if ts.last().id != id {
            assert(r.push(ts.last())[j] == ts[i]);
        }
    } else {
        assert(without_id(ts, id) == without_id(d, id).push(ts.last()));
        assert(without_id(ts, id)[without_id(d, id).len() as int] == ts[i]);
    }
}

/// After a task fails it is recorded as failed and no longer running.
pub proof fn law_failure_recorded(v: SchedulerView, id: TaskId)
    ensures
        v.after_failed(id).failed.contains(id),
        !has_key(v.after_failed(id).running, id),
{
    if !v.failed.contains(id) {
        assert(add_id(v.failed, id)[v.failed.len() as int] == id);
    }
    lemma_without_key_no_key(v.running, id);
}

/// A newly registered agent is registered under its id, with its record last.
pub proof fn law_registered_agent_is_found(agents: Seq<AgentInfoView>, info: AgentInfoView)
    ensures
        has_agent_id(agents.push(info), info.id),
        agents.push(info).len() == agents.len() + 1,
        agents.push(info).last() == info,
{
    assert(agents.push(info)[agents.len() as int].id == info.id);
}

/// Unregistering an agent that was just registered gives back the registry as it
/// was.
pub proof fn law_register_unregister_roundtrip(agents: Seq<AgentInfoView>, info: AgentInfoView)
    requires
        !has_agent_id(agents, info.id),
    ensures
        without_agent(agents.push(info), info.id) == agents,
{
    assert(agents.push(info).drop_last() =~= agents);
    lemma_without_agent_absent(agents, info.id);
}

/// The agent chosen for a task is registered, healthy and offers every capability
/// the task requires.
pub proof fn law_chosen_agent_is_suitable(agents: Seq<AgentInfoView>, required: Seq<Seq<char>>)
    ensures
        first_suitable(agents, required) matches Some(a) ==> exists|i: int|
            0 <= i < agents.len() && #[trigger] agents[i].id == a && suitable(agents[i], required),
    decreases agents.len(),
{
    if agents.len() > 0 && !suitable(agents[0], required) {
        let rest = agents.drop_first();
        law_chosen_agent_is_suitable(rest, required);
        if first_suitable(rest, required) is Some {
            let a = first_suitable(rest, required)->0;
            let i = choose|i: int| 0 <= i < rest.len() && #[trigger] rest[i].id == a && suitable(rest[i], required);
            assert(agents[i + 1] == rest[i]);
        }
    }
}

/// The agent of a dispatch is registered, healthy and offers every capability
/// its task requires.
pub open spec fn dispatched_suitably(agents: Seq<AgentInfoView>, d: (Task, AgentId)) -> bool {
    exists|i: int| 0 <= i < agents.len() && #[trigger] agents[i].id == d.1 && suitable(agents[i], d.0.required())
}

/// Handing out tasks only appends to the queue of dispatches, at most `n` of
/// them, and each goes to a registered agent that is healthy and offers every
/// capability the task requires.
pub proof fn law_dispatches_are_bounded_and_suitable(agents: Seq<AgentInfoView>, f: Flow, n: nat)
    ensures
        ({
            let g = run_dispatch(agents, f, n).0;
            &&& f.outbox.len() <= g.outbox.len() <= f.outbox.len() + n
            &&& g.active.len() <= f.active.len() + n
            &&& g.outbox.take(f.outbox.len() as int) == f.outbox
            &&& forall|k: int|
                f.outbox.len() <= k < g.outbox.len() ==> dispatched_suitably(agents, #[trigger] g.outbox[k])
        }),
    decreases n,
{
    if n > 0 {
        let (next, s2) = f.sched.take_next();
        if next is Some {
            let t = next->0;
            if first_suitable(agents, t.required()) is Some {
                let a = first_suitable(agents, t.required())->0;
                let f2 = Flow {
                    sched: s2.after_running(t.id, a),
                    active: crate::scheduler::put_entry(f.active, (t.id, a)),
                    outbox: f.outbox.push((t, a)),
                };
                law_dispatches_are_bounded_and_suitable(agents, f2, (n - 1) as nat);
                law_chosen_agent_is_suitable(agents, t.required());
                let g = run_dispatch(agents, f2, (n - 1) as nat).0;
                assert(g.outbox.take(f2.outbox.len() as int) == f2.outbox);
                assert(g.outbox[f.outbox.len() as int] == f2.outbox[f.outbox.len() as int]);
                assert(g.outbox.take(f.outbox.len() as int) =~= f2.outbox.take(f.outbox.len() as int));
                assert(f2.outbox.take(f.outbox.len() as int) =~= f.outbox);
            }
        }
    } else {
        assert(f.outbox.take(f.outbox.len() as int) =~= f.outbox);
    }
}

/// The sequential strategy hands out nothing while some task is executing.
pub proof fn law_sequential_waits_for_active(agents: Seq<AgentInfoView>, f: Flow)
    requires
        f.active.len() > 0,
    ensures
        run_dispatch(agents, f, available_slots(ExecutionStrategy::Sequential, f.active.len() as int))
            == (f, RunOutcome::Done),
{
}

/// Under a parallel strategy with limit `max_concurrent`, handing out tasks never
/// brings the number of executing tasks above the limit.
pub proof fn law_parallel_respects_limit(agents: Seq<AgentInfoView>, f: Flow, max_concurrent: usize)
    requires
        f.active.len() <= max_concurrent,
    ensures
        run_dispatch(
            agents,
            f,
            available_slots(ExecutionStrategy::Parallel { max_concurrent }, f.active.len() as int),
        ).0.active.len() <= max_concurrent,
{
    law_dispatches_are_bounded_and_suitable(
        agents,
        f,
        available_slots(ExecutionStrategy::Parallel { max_concurrent }, f.active.len() as int),
    );
}

/// A parameter set on a task reads back as it was set: a string as its text,
/// an array as the texts among its elements.
pub proof fn law_parameter_reads_back(params: Map<Seq<char>, ParamValue>, key: Seq<char>, value: ParamValue)
    ensures
        text_param(params.insert(key, value), key) == param_text(value),
        texts_param(params.insert(key, value), key) == param_texts(value),
{
}

/// Setting a parameter leaves every other parameter reading as before.
pub proof fn law_parameter_others_unchanged(
    params: Map<Seq<char>, ParamValue>,
    key: Seq<char>,
    value: ParamValue,
    other: Seq<char>,
)
    requires
        other != key,
    ensures
        text_param(params.insert(key, value), other) == text_param(params, other),
        texts_param(params.insert(key, value), other) == texts_param(params, other),
{
}

/// A task whose requirements no registered agent offers, or whose dependency
/// has failed, is refused and leaves the scheduler and the coordinator as they
/// were.
pub proof fn law_refused_submission_changes_nothing(
    agents: Seq<AgentInfoView>,
    s: SchedulerView,
    c: CoordinatorView,
    task: Task,
)
    requires
        !requirements_met(agents, task.required()) || s.status_of(task) is DependsOnFailed,
    ensures
        submission(agents, s, c, task).0 == s,
        submission(agents, s, c, task).1 == c,
        !(submission(agents, s, c, task).2 is Accepted),
{
}

/// Ids that name every registered agent exactly once (as the health checks
/// of all agents do) name each registered agent.
pub proof fn law_covering_ids_name_every_agent(agents: Seq<AgentInfoView>, ids: Seq<AgentId>, j: int)
    requires
        agent_ids(agents).no_duplicates(),
        covers_registry(agents, ids),
        0 <= j < agents.len(),
    ensures
        exists|i: int| 0 <= i < ids.len() && ids[i] == agents[j].id,
{
    let all = agent_ids(agents);
    let x = ids.to_set();
    let y = all.to_set();
    ids.unique_seq_to_set();
    all.unique_seq_to_set();
    assert(x.subset_of(y)) by {
        assert forall|v: AgentId| x.contains(v) implies y.contains(v) by {
            let i = choose|i: int| 0 <= i < ids.len() && ids[i] == v;
            assert(has_agent_id(agents, ids[i]));
            let k = choose|k: int| 0 <= k < agents.len() && #[trigger] agents[k].id == ids[i];
            assert(all[k] == v);
        }
    }
    vstd::set_lib::lemma_subset_equality(x, y);
    assert(y.contains(all[j]));
    assert(x.contains(agents[j].id));
}

/// The record found under a newly registered agent's id is the record it was
/// registered with, and only that one.
pub proof fn law_registered_record_read_back(agents: Seq<AgentInfoView>, info: AgentInfoView, i: int)
    requires
        !has_agent_id(agents, info.id),
        0 <= i < agents.len() + 1,
        agents.push(info)[i].id == info.id,
    ensures
        agents.push(info)[i] == info,
        i == agents.len(),
{
    if i < agents.len() {
        assert(agents.push(info)[i] == agents[i]);
    }
}

/// Whether `caps` has a capability named `name`.
pub open spec fn offers(caps: Seq<CapabilityView>, name: Seq<char>) -> bool {
    exists|j: int| 0 <= j < caps.len() && caps[j].name == name
}

/// Whether `caps` offers every capability named in `required`.
pub open spec fn offers_all(caps: Seq<CapabilityView>, required: Seq<Seq<char>>) -> bool {
    forall|k: int| 0 <= k < required.len() ==> offers(caps, #[trigger] required[k])
}

/// The agent chosen for a task is the first registered agent whose health is
/// exactly Healthy (never Degraded or Unhealthy) and that offers a capability
/// of every required name; when no agent is both, none is chosen.
pub proof fn law_only_healthy_capable_agents_are_chosen(agents: Seq<AgentInfoView>, required: Seq<Seq<char>>)
    ensures
        first_suitable(agents, required) matches Some(a) ==> exists|i: int|
            0 <= i < agents.len() && #[trigger] agents[i].id == a && agents[i].health
                == HealthView::Healthy && offers_all(agents[i].capabilities, required) && forall|j: int|
                0 <= j < i ==> !(agents[j].health == HealthView::Healthy && offers_all(
                    agents[j].capabilities,
                    required,
                )),
        (forall|i: int|
            0 <= i < agents.len() ==> !(#[trigger] agents[i].health == HealthView::Healthy && offers_all(
                agents[i].capabilities,
                required,
            ))) ==> first_suitable(agents, required) is None,
    decreases agents.len(),
{
    if agents.len() > 0 {
        let rest = agents.drop_first();
        law_only_healthy_capable_agents_are_chosen(rest, required);
        let h0 = agents[0].health == HealthView::Healthy;
        assert(meets_all(agents[0].capabilities, required) == offers_all(agents[0].capabilities, required)) by {
            assert forall|k: int| 0 <= k < required.len() implies has_name(
                agents[0].capabilities,
                #[trigger] required[k],
            ) == offers(agents[0].capabilities, required[k]) by {}
        }
        assert((agents[0].health is Healthy) == h0);
        if !suitable(agents[0], required) {
            if first_suitable(rest, required) is Some {
                let a = first_suitable(rest, required)->0;
                let i = choose|i: int|
                    0 <= i < rest.len() && #[trigger] rest[i].id == a && rest[i].health == HealthView::Healthy
                        && offers_all(rest[i].capabilities, required) && forall|j: int|
                        0 <= j < i ==> !(rest[j].health == HealthView::Healthy && offers_all(
                            rest[j].capabilities,
                            required,
                        ));
                assert(agents[i + 1] == rest[i]);
                assert forall|j: int| 0 <= j < i + 1 implies !(agents[j].health == HealthView::Healthy
                    && offers_all(agents[j].capabilities, required)) by {
                    if j > 0 {
                        assert(agents[j] == rest[j - 1]);
                    }
                }
            }
            if forall|i: int|
                0 <= i < agents.len() ==> !(#[trigger] agents[i].health == HealthView::Healthy && offers_all(
                    agents[i].capabilities,
                    required,
                )) {
                assert forall|i: int| 0 <= i < rest.len() implies !(#[trigger] rest[i].health
                    == HealthView::Healthy && offers_all(rest[i].capabilities, required)) by {
                    assert(rest[i] == agents[i + 1]);
                }
            }
        } else {
            assert(agents[0].id == agents[0].id);
        }
    }
}

/// The lookup by type returns exactly the registered records whose type equals
/// the requested one (a custom type only with the same name), in registration
/// order.
pub proof fn law_lookup_by_type_is_exact(agents: Seq<AgentInfoView>, t: AgentTypeView)
    ensures
        of_type(agents, t) == agents.filter(|i: AgentInfoView| i.agent_type == t),
        forall|k: int| 0 <= k < of_type(agents, t).len() ==> (#[trigger] of_type(agents, t)[k]).agent_type == t,
        forall|i: int| 0 <= i < agents.len() && #[trigger] agents[i].agent_type == t ==> of_type(agents, t).contains(
            agents[i],
        ),
    decreases agents.len(),
{
    reveal(Seq::filter);
    if agents.len() > 0 {
        law_lookup_by_type_is_exact(agents.drop_last(), t);
    }
    let pred = |i: AgentInfoView| i.agent_type == t;
    #[allow(deprecated)]
    agents.filter_lemma(pred);
}

/// The lookup by capability returns exactly the registered records offering a
/// capability of that name, whatever their health, in registration order.
pub proof fn law_lookup_by_capability_is_exact(agents: Seq<AgentInfoView>, name: Seq<char>)
    ensures
        with_capability(agents, name) == agents.filter(|i: AgentInfoView| offers(i.capabilities, name)),
        forall|k: int|
            0 <= k < with_capability(agents, name).len() ==> offers(
                (#[trigger] with_capability(agents, name)[k]).capabilities,
                name,
            ),
        forall|i: int|
            0 <= i < agents.len() && offers(#[trigger] agents[i].capabilities, name) ==> with_capability(
                agents,
                name,
            ).contains(agents[i]),
    decreases agents.len(),
{
    reveal(Seq::filter);
    if agents.len() > 0 {
        law_lookup_by_capability_is_exact(agents.drop_last(), name);
        assert(has_name(agents.last().capabilities, name) == offers(agents.last().capabilities, name));
    }
    let pred = |i: AgentInfoView| offers(i.capabilities, name);
    #[allow(deprecated)]
    agents.filter_lemma(pred);
}

/// A Rust test function named `name`, as generated.
pub open spec fn rust_test_function(name: Seq<char>) -> Seq<char> {
    "\n    \x23[test]\n    fn "@ + name + "() {\n        assert\x21(true);\n    }\n"@
}

/// The names of the generated tests, in order.
pub open spec fn generated_test_names() -> Seq<Seq<char>> {
    seq!["test_basic_functionality"@, "test_edge_cases"@, "test_error_handling"@]
}

/// The generated Rust test module: a `tests` module that uses its parent and
/// holds, in order, the test functions test_basic_functionality,
/// test_edge_cases and test_error_handling, and nothing else.
pub proof fn law_rust_module_has_three_tests()
    ensures
        rust_test_module() == "\x23[cfg(test)]\nmod tests {\n    use super::\x2a;\n"@ + rust_test_function(
            generated_test_names()[0],
        ) + rust_test_function(generated_test_names()[1]) + rust_test_function(
            generated_test_names()[2],
        ) + "}"@,
{
    reveal_strlit("\x23[cfg(test)]\nmod tests {\n    use super::\x2a;\n\n    \x23[test]\n    fn test_basic_functionality() {\n        assert\x21(true);\n    }\n\n    \x23[test]\n    fn test_edge_cases() {\n        assert\x21(true);\n    }\n\n    \x23[test]\n    fn test_error_handling() {\n        assert\x21(true);\n    }\n}");
    reveal_strlit("\x23[cfg(test)]\nmod tests {\n    use super::\x2a;\n");
    reveal_strlit("\n    \x23[test]\n    fn ");
    reveal_strlit("() {\n        assert\x21(true);\n    }\n");
    reveal_strlit("}");
    reveal_strlit("test_basic_functionality");
    reveal_strlit("test_edge_cases");
    reveal_strlit("test_error_handling");
    assert(rust_test_module() =~= "\x23[cfg(test)]\nmod tests {\n    use super::\x2a;\n"@ + rust_test_function(
        generated_test_names()[0],
    ) + rust_test_function(generated_test_names()[1]) + rust_test_function(generated_test_names()[2])
        + "}"@);
}

/// A Python test method named `name` whose body starts with the comment
/// `comment`, as generated.
pub open spec fn python_test_method(name: Seq<char>, comment: Seq<char>) -> Seq<char> {
    "    def "@ + name + "(self):\n        # "@ + comment + "\n        self.assertTrue(True)\n"@
}

/// The opening of the generated Python module for `source`: it imports the
/// module named by `source` without ".py" and opens a test class named after it.
pub open spec fn python_module_opening(source: Seq<char>) -> Seq<char> {
    let module = replace_all(source, ".py"@, ""@);
    "import unittest\nfrom "@ + module + " import *\n\nclass Test"@ + replace_all(module, "/"@, "_"@)
        + "(unittest.TestCase):\n"@
}

/// The generated Python test module for `source`: a unittest class holding, in
/// order, the test methods test_basic_functionality, test_edge_cases and
/// test_error_handling, and nothing else, then the main guard.
pub proof fn law_python_module_has_three_tests(source: Seq<char>)
    ensures
        python_test_module(source) == python_module_opening(source) + python_test_method(
            generated_test_names()[0],
            "Generated test for "@ + source,
        ) + "    \n"@ + python_test_method(generated_test_names()[1], "Test edge cases"@) + "    \n"@
            + python_test_method(generated_test_names()[2], "Test error conditions"@)
            + "\nif __name__ == '__main__':\n    unittest.main()\n"@,
{
    let module = replace_all(source, ".py"@, ""@);
    let head = "import unittest\nfrom "@ + module + " import *\n\nclass Test"@ + replace_all(module, "/"@, "_"@);
    reveal_strlit("(unittest.TestCase):\n    def test_basic_functionality(self):\n        # Generated test for ");
    reveal_strlit("\n        self.assertTrue(True)\n    \n    def test_edge_cases(self):\n        # Test edge cases\n        self.assertTrue(True)\n    \n    def test_error_handling(self):\n        # Test error conditions\n        self.assertTrue(True)\n\nif __name__ == '__main__':\n    unittest.main()\n");
    reveal_strlit("(unittest.TestCase):\n");
    reveal_strlit("    def ");
    reveal_strlit("(self):\n        # ");
    reveal_strlit("Generated test for ");
    reveal_strlit("\n        self.assertTrue(True)\n");
    reveal_strlit("    \n");
    reveal_strlit("Test edge cases");
    reveal_strlit("Test error conditions");
    reveal_strlit("\nif __name__ == '__main__':\n    unittest.main()\n");
    reveal_strlit("test_basic_functionality");
    reveal_strlit("test_edge_cases");
    reveal_strlit("test_error_handling");
    let a = "(unittest.TestCase):\n"@ + "    def "@ + generated_test_names()[0] + "(self):\n        # "@
        + "Generated test for "@;
    assert("(unittest.TestCase):\n    def test_basic_functionality(self):\n        # Generated test for "@ =~= a);
    let t = "\n        self.assertTrue(True)\n"@ + "    \n"@ + python_test_method(
        generated_test_names()[1],
        "Test edge cases"@,
    ) + "    \n"@ + python_test_method(generated_test_names()[2], "Test error conditions"@)
        + "\nif __name__ == '__main__':\n    unittest.main()\n"@;
    assert("\n        self.assertTrue(True)\n    \n    def test_edge_cases(self):\n        # Test edge cases\n        self.assertTrue(True)\n    \n    def test_error_handling(self):\n        # Test error conditions\n        self.assertTrue(True)\n\nif __name__ == '__main__':\n    unittest.main()\n"@ =~= t);
    assert(python_test_module(source) =~= head + "(unittest.TestCase):\n    def test_basic_functionality(self):\n        # Generated test for "@ + source + "\n        self.assertTrue(True)\n    \n    def test_edge_cases(self):\n        # Test edge cases\n        self.assertTrue(True)\n    \n    def test_error_handling(self):\n        # Test error conditions\n        self.assertTrue(True)\n\nif __name__ == '__main__':\n    unittest.main()\n"@);
    assert(python_test_module(source) =~= python_module_opening(source) + python_test_method(
        generated_test_names()[0],
        "Generated test for "@ + source,
    ) + "    \n"@ + python_test_method(generated_test_names()[1], "Test edge cases"@) + "    \n"@
        + python_test_method(generated_test_names()[2], "Test error conditions"@)
        + "\nif __name__ == '__main__':\n    unittest.main()\n"@);
}

/// A test generation with the Rust or default framework produces the Rust test
/// module with as many test functions as the reported test count, named
/// test_basic_functionality, test_edge_cases and test_error_handling, in order.
pub proof fn law_generated_rust_tests_match_count(
    source: Seq<char>,
    framework: Option<Seq<char>>,
    g: TestGeneration,
)
    requires
        test_generation_result(Some(source), framework, Ok(g)),
        framework_or_default(framework) == "rust"@ || framework_or_default(framework) == "default"@,
    ensures
        g.test_count == generated_test_names().len(),
        g.generated_tests@ == "\x23[cfg(test)]\nmod tests {\n    use super::\x2a;\n"@ + rust_test_function(
            generated_test_names()[0],
        ) + rust_test_function(generated_test_names()[1]) + rust_test_function(
            generated_test_names()[2],
        ) + "}"@,
{
    law_rust_module_has_three_tests();
}

/// A test generation with the Python framework produces a unittest class with
/// as many test methods as the reported test count, named
/// test_basic_functionality, test_edge_cases and test_error_handling, in order.
pub proof fn law_generated_python_tests_match_count(
    source: Seq<char>,
    framework: Option<Seq<char>>,
    g: TestGeneration,
)
    requires
        test_generation_result(Some(source), framework, Ok(g)),
        framework_or_default(framework) == "python"@,
    ensures
        g.test_count == generated_test_names().len(),
        g.generated_tests@ == python_module_opening(source) + python_test_method(
            generated_test_names()[0],
            "Generated test for "@ + source,
        ) + "    \n"@ + python_test_method(generated_test_names()[1], "Test edge cases"@) + "    \n"@
            + python_test_method(generated_test_names()[2], "Test error conditions"@)
            + "\nif __name__ == '__main__':\n    unittest.main()\n"@,
{
    reveal_strlit("python");
    reveal_strlit("rust");
    reveal_strlit("default");
    assert("python"@[0] != "rust"@[0] && "python"@[0] != "default"@[0]);
    assert(generated_tests_text(source, "python"@) == python_test_module(source));
    law_python_module_has_three_tests(source);
}

} // verus!
