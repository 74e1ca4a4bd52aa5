//! A minimal registry and coordinator keyed by text ids.
use vstd::prelude::*;

verus! {

/// A task named by a text id.
#[derive(Debug)]
pub struct SimpleTask {
    pub id: String,
    pub task_type: String,
    pub description: String,
}

/// Mathematical value of a simple task.
pub ghost struct SimpleTaskView {
    pub id: Seq<char>,
    pub task_type: Seq<char>,
    pub description: Seq<char>,
}

impl View for SimpleTask {
    type V = SimpleTaskView;

    open spec fn view(&self) -> SimpleTaskView {
        SimpleTaskView { id: self.id@, task_type: self.task_type@, description: self.description@ }
    }
}

impl Clone for SimpleTask {
    fn clone(&self) -> (r: Self)
        ensures
            r@ == self@,
    {
        SimpleTask {
            id: self.id.clone(),
            task_type: self.task_type.clone(),
            description: self.description.clone(),
        }
    }
}

/// An agent named by a text id.
#[derive(Debug)]
pub struct SimpleAgent {
    pub id: String,
    pub name: String,
    pub agent_type: String,
}

/// Mathematical value of a simple agent.
pub ghost struct SimpleAgentView {
    pub id: Seq<char>,
    pub name: Seq<char>,
    pub agent_type: Seq<char>,
}

impl View for SimpleAgent {
    type V = SimpleAgentView;

    open spec fn view(&self) -> SimpleAgentView {
        SimpleAgentView { id: self.id@, name: self.name@, agent_type: self.agent_type@ }
    }
}

impl Clone for SimpleAgent {
    fn clone(&self) -> (r: Self)
        ensures
            r@ == self@,
    {
        SimpleAgent {
            id: self.id.clone(),
            name: self.name.clone(),
            agent_type: self.agent_type.clone(),
        }
    }
}

/// The views of a sequence of simple agents.
pub open spec fn simple_agent_views(s: Seq<SimpleAgent>) -> Seq<SimpleAgentView> {
    s.map_values(|a: SimpleAgent| a@)
}

/// Whether some agent of `s` has id `id`.
pub open spec fn has_simple_agent(s: Seq<SimpleAgentView>, id: Seq<char>) -> bool {
    exists|i: int| 0 <= i < s.len() && #[trigger] s[i].id == id
}

/// The registry after registering `a`: an agent with the same id is replaced in
/// place, otherwise `a` is appended.
pub open spec fn register_simple(s: Seq<SimpleAgentView>, a: SimpleAgentView) -> Seq<SimpleAgentView> {
    if has_simple_agent(s, a.id) {
        s.update(choose|i: int| 0 <= i < s.len() && #[trigger] s[i].id == a.id, a)
    } else {
        s.push(a)
    }
}

/// No two agents of `s` share an id.
pub open spec fn simple_ids_unique(s: Seq<SimpleAgentView>) -> bool {
    forall|a: int, b: int|
        0 <= a < s.len() && 0 <= b < s.len() && a != b ==> #[trigger] s[a].id != #[trigger] s[b].id
}

/// A registry of simple agents, one per id.
#[derive(Debug)]
pub struct SimpleAgentManager {
    agents: Vec<SimpleAgent>,
}

impl SimpleAgentManager {
    /// The agents, one per id, in the order their ids were first registered.
    pub closed spec fn view(&self) -> Seq<SimpleAgentView> {
        simple_agent_views(self.agents@)
    }

    /// No id is registered twice.
    pub open spec fn wf(&self) -> bool {
        simple_ids_unique(self.view())
    }

    /// An empty registry.
    pub fn new() -> (m: SimpleAgentManager)
        ensures
            m.wf(),
            m.view().len() == 0,
    {
        let m = SimpleAgentManager { agents: Vec::new() };
        proof {
            assert(m.view() =~= Seq::<SimpleAgentView>::empty());
        }
        m
    }

    /// Registers `agent`, replacing any agent with the same id; returns the id.
    pub fn register_agent(&mut self, agent: SimpleAgent) -> (r: String)
        requires
            old(self).wf(),
        ensures
            final(self).wf(),
            r@ == agent.id@,
            final(self).view() == register_simple(old(self).view(), agent@),
    {
        let agent_id = agent.id.clone();
        let ghost before = self.view();
        let mut i: usize = 0;
        while i < self.agents.len()
            invariant
                i <= self.agents@.len(),
                self.view() == before,
                simple_ids_unique(before),
                agent_id@ == agent@.id,
                before == old(self).view(),
                forall|j: int| 0 <= j < i ==> #[trigger] before[j].id != agent@.id,
            decreases self.agents.len() - i,
        {
            proof {
                assert(before[i as int] == self.agents@[i as int]@);
            }
            if self.agents[i].id == agent_id {
                self.agents.set(i, agent);
                proof {
                    assert(before[i as int].id == agent@.id);
                    assert(has_simple_agent(before, agent@.id));
                    let c = choose|j: int| 0 <= j < before.len() && #[trigger] before[j].id == agent@.id;
                    if c != i {
                        assert(before[c].id != before[i as int].id);
                    }
                    assert(self.view() =~= before.update(i as int, agent@));
                    let now = self.view();
                    assert forall|a: int, b: int|
                        0 <= a < now.len() && 0 <= b < now.len() && a != b implies #[trigger] now[a].id
                        != #[trigger] now[b].id by {
                        if a != i && b != i {
                            assert(now[a] == before[a] && now[b] == before[b]);
                        } else if a == i {
                            assert(now[b] == before[b]);
                        } else {
                            assert(now[a] == before[a]);
                        }
                    }
                }
                return agent_id;
            }
            i = i + 1;
        }
        self.agents.push(agent);
        proof {
            assert(self.view() =~= before.push(agent@));
            let now = self.view();
            assert forall|a: int, b: int|
                0 <= a < now.len() && 0 <= b < now.len() && a != b implies #[trigger] now[a].id
                != #[trigger] now[b].id by {
                if a < before.len() && b < before.len() {
                    assert(now[a] == before[a] && now[b] == before[b]);
                } else if a < before.len() {
                    assert(now[a] == before[a]);
                } else {
                    assert(now[b] == before[b]);
                }
            }
        }
        agent_id
    }

    /// Copies of the registered agents, in the order their ids were first
    /// registered.
    pub fn list_agents(&self) -> (r: Vec<SimpleAgent>)
        ensures
            simple_agent_views(r@) == self.view(),
    {
        let mut r: Vec<SimpleAgent> = Vec::new();
        let mut i: usize = 0;
        while i < self.agents.len()
            invariant
                i <= self.agents@.len(),
                simple_agent_views(r@) == self.view().take(i as int),
            decreases self.agents.len() - i,
        {
            let ghost r0 = r@;
            let a = self.agents[i].clone();
            r.push(a);
            proof {
                assert(r@ =~= r0.push(a));
                assert(simple_agent_views(r@) =~= simple_agent_views(r0).push(a@));
                assert(simple_agent_views(r@) =~= self.view().take(i + 1));
            }
            i = i + 1;
        }
        proof {
            assert(self.view().take(i as int) =~= self.view());
        }
        r
    }

    /// The number of registered agents.
    pub fn agent_count(&self) -> (r: usize)
        ensures
            r == self.view().len(),
    {
        self.agents.len()
    }
}

/// The views of a sequence of simple tasks.
pub open spec fn simple_task_views(s: Seq<SimpleTask>) -> Seq<SimpleTaskView> {
    s.map_values(|t: SimpleTask| t@)
}

/// Collects submitted simple tasks in submission order.
#[derive(Debug)]
pub struct SimpleCoordinator {
    tasks: Vec<SimpleTask>,
}

impl SimpleCoordinator {
    /// The submitted tasks, in submission order.
    pub closed spec fn view(&self) -> Seq<SimpleTaskView> {
        simple_task_views(self.tasks@)
    }

    /// A coordinator with no tasks.
    pub fn new() -> (c: SimpleCoordinator)
        ensures
            c.view().len() == 0,
    {
        let c = SimpleCoordinator { tasks: Vec::new() };
        proof {
            assert(c.view() =~= Seq::<SimpleTaskView>::empty());
        }
        c
    }

    /// Records `task`; returns its id.
    pub fn submit_task(&mut self, task: SimpleTask) -> (r: String)
        ensures
            r@ == task.id@,
            final(self).view() == old(self).view().push(task@),
    {
        let task_id = task.id.clone();
        let ghost before = self.tasks@;
        self.tasks.push(task);
        proof {
            assert(self.tasks@ == before.push(task));
            assert(self.view() =~= simple_task_views(before).push(task@));
        }
        task_id
    }

    /// The number of registered agents and of submitted tasks.
    pub fn get_stats(&self, agent_manager: &SimpleAgentManager) -> (r: (usize, usize))
        ensures
            r.0 == agent_manager.view().len(),
            r.1 == self.view().len(),
    {
        let agents = agent_manager.list_agents();
        proof {
            assert(simple_agent_views(agents@).len() == agents@.len());
        }
        (agents.len(), self.tasks.len())
    }
}

} // verus!
