use vstd::prelude::*;

use crate::agent::{AgentHealth, AgentInfo, AgentInfoView, AgentType, AgentTypeView, HealthView};
use crate::capability::has_name;
use crate::error::{is_agent_not_found, AgentError};
use crate::ids::{id_text, uuid_text, AgentId};

verus! {

/// The views of a sequence of agent records.
pub open spec fn info_views(s: Seq<AgentInfo>) -> Seq<AgentInfoView> {
    s.map_values(|i: AgentInfo| i@)
}

/// Whether some record in `s` has id `id`.
pub open spec fn has_agent_id(s: Seq<AgentInfoView>, id: AgentId) -> bool {
    exists|i: int| 0 <= i < s.len() && #[trigger] s[i].id == id
}

/// The ids of a sequence of records.
pub open spec fn agent_ids(s: Seq<AgentInfoView>) -> Seq<AgentId> {
    s.map_values(|i: AgentInfoView| i.id)
}

/// The records of `s` whose id is not `id`, in order.
pub open spec fn without_agent(s: Seq<AgentInfoView>, id: AgentId) -> Seq<AgentInfoView>
    decreases s.len(),
{
    if s.len() == 0 {
        Seq::empty()
    } else {
        let r = without_agent(s.drop_last(), id);
        if s.last().id == id {
            r
        } else {
            r.push(s.last())
        }
    }
}

/// The records of `s` of agent type `t`, in order.
pub open spec fn of_type(s: Seq<AgentInfoView>, t: AgentTypeView) -> Seq<AgentInfoView>
    decreases s.len(),
{
    if s.len() == 0 {
        Seq::empty()
    } else {
        let r = of_type(s.drop_last(), t);
        if s.last().agent_type == t {
            r.push(s.last())
        } else {
            r
        }
    }
}

/// The records of `s` offering a capability named `name`, in order.
pub open spec fn with_capability(s: Seq<AgentInfoView>, name: Seq<char>) -> Seq<AgentInfoView>
    decreases s.len(),
{
    if s.len() == 0 {
        Seq::empty()
    } else {
        let r = with_capability(s.drop_last(), name);
        if has_name(s.last().capabilities, name) {
            r.push(s.last())
        } else {
            r
        }
    }
}

/// The health a check reports: its value, or Unhealthy with the error text.
pub open spec fn checked_health(c: Result<HealthView, Seq<char>>) -> HealthView {
    match c {
        Ok(h) => h,
        Err(e) => HealthView::Unhealthy(e),
    }
}

/// `s` with the health of each record replaced by the last reported health for
/// its id in `checks`, if any.
pub open spec fn apply_health(s: Seq<AgentInfoView>, checks: Seq<(AgentId, HealthView)>) -> Seq<
    AgentInfoView,
>
    decreases checks.len(),
{
    if checks.len() == 0 {
        s
    } else {
        let r = apply_health(s, checks.drop_last());
        let (id, h) = checks.last();
        r.map_values(|i: AgentInfoView| if i.id == id { AgentInfoView { health: h, ..i } } else { i })
    }
}

/// Whether `ids` names every registered agent exactly once: as many ids as
/// records, no id twice, each id registered.
pub open spec fn covers_registry(agents: Seq<AgentInfoView>, ids: Seq<AgentId>) -> bool {
    &&& ids.len() == agents.len()
    &&& ids.no_duplicates()
    &&& forall|i: int| 0 <= i < ids.len() ==> has_agent_id(agents, #[trigger] ids[i])
}

/// The ids of a sequence of check outcomes.
pub open spec fn check_ids(checks: Seq<(AgentId, Result<AgentHealth, String>)>) -> Seq<AgentId> {
    checks.map_values(|c: (AgentId, Result<AgentHealth, String>)| c.0)
}

/// The ids of a sequence of health reports.
pub open spec fn report_ids(reports: Seq<(AgentId, AgentHealth)>) -> Seq<AgentId> {
    reports.map_values(|c: (AgentId, AgentHealth)| c.0)
}

/// With reports for distinct ids, applying them sets each record's health to
/// the report for its id, if there is one, and changes nothing else.
pub proof fn lemma_apply_health(s: Seq<AgentInfoView>, checks: Seq<(AgentId, HealthView)>, j: int)
    requires
        0 <= j < s.len(),
        checks.map_values(|c: (AgentId, HealthView)| c.0).no_duplicates(),
    ensures
        apply_health(s, checks).len() == s.len(),
        forall|k: int|
            0 <= k < checks.len() && #[trigger] checks[k].0 == s[j].id ==> apply_health(s, checks)[j]
                == (AgentInfoView { health: checks[k].1, ..s[j] }),
        (forall|k: int| 0 <= k < checks.len() ==> #[trigger] checks[k].0 != s[j].id) ==> apply_health(
            s,
            checks,
        )[j] == s[j],
    decreases checks.len(),
{
    if checks.len() > 0 {
        let d = checks.drop_last();
        let ids = checks.map_values(|c: (AgentId, HealthView)| c.0);
        let dids = d.map_values(|c: (AgentId, HealthView)| c.0);
        assert(dids =~= ids.drop_last());
        assert(dids.no_duplicates()) by {
            assert forall|a: int, b: int| 0 <= a < dids.len() && 0 <= b < dids.len() && a != b implies dids[a]
                != dids[b] by {
                assert(dids[a] == ids[a] && dids[b] == ids[b]);
            }
        }
        lemma_apply_health(s, d, j);
        let last = checks.last();
        assert forall|k: int| 0 <= k < checks.len() && #[trigger] checks[k].0 == s[j].id implies apply_health(
            s,
            checks,
        )[j] == (AgentInfoView { health: checks[k].1, ..s[j] }) by {
            if k < checks.len() - 1 {
                assert(d[k] == checks[k]);
                assert(ids[k] != ids[checks.len() - 1]);
            }
        }
        if forall|k: int| 0 <= k < checks.len() ==> #[trigger] checks[k].0 != s[j].id {
            assert forall|k: int| 0 <= k < d.len() implies #[trigger] d[k].0 != s[j].id by {
                assert(d[k] == checks[k]);
            }
            assert(checks[checks.len() - 1].0 != s[j].id);
        }
    }
}

/// The message refusing a second registration of `id`.
pub open spec fn duplicate_agent_message(id: AgentId) -> Seq<char> {
    "Agent with ID "@ + uuid_text(id) + " already registered"@
}

/// The message refusing direct access to a registered agent.
pub open spec fn direct_access_message() -> Seq<char> {
    "Direct agent access not implemented - use execute_task instead"@
}

/// The registry of agents, each id once, in registration order.
#[derive(Debug)]
pub struct AgentManager {
    agent_info: Vec<AgentInfo>,
}

impl AgentManager {
    /// The records, in registration order.
    pub closed spec fn view(&self) -> Seq<AgentInfoView> {
        info_views(self.agent_info@)
    }

    /// No id is registered twice.
    pub open spec fn wf(&self) -> bool {
        agent_ids(self.view()).no_duplicates()
    }

    /// An empty registry.
    pub fn new() -> (m: AgentManager)
        ensures
            m.wf(),
            m.view().len() == 0,
    {
        let m = AgentManager { agent_info: Vec::new() };
        proof {
            assert(agent_ids(m.view()) =~= Seq::<AgentId>::empty());
        }
        m
    }

    fn index_of(&self, id: AgentId) -> (r: Option<usize>)
        ensures
            match r {
                Some(i) => i < self.view().len() && self.view()[i as int].id == id,
                None => !has_agent_id(self.view(), id),
            },
    {
        let mut i: usize = 0;
        while i < self.agent_info.len()
            invariant
                i <= self.agent_info@.len(),
                forall|j: int| 0 <= j < i ==> #[trigger] self.view()[j].id != id,
            decreases self.agent_info.len() - i,
        {
            if self.agent_info[i].id == id {
                return Some(i);
            }
            i = i + 1;
        }
        None
    }

    /// Registers `info` under its id; an id that is already registered is refused
    /// and the registry is left as it was.
    pub fn register_agent(&mut self, info: AgentInfo) -> (r: Result<AgentId, AgentError>)
        requires
            old(self).wf(),
        ensures
            final(self).wf(),
            has_agent_id(old(self).view(), info.id) ==> {
                &&& final(self).view() == old(self).view()
                &&& r matches Err(AgentError::Internal(m)) && m@ == duplicate_agent_message(info.id)
            },
            !has_agent_id(old(self).view(), info.id) ==> {
                &&& final(self).view() == old(self).view().push(info@)
                &&& r == Ok::<AgentId, AgentError>(info.id)
            },
    {
        let id = info.id;
        match self.index_of(id) {
            Some(_) => {
                let mut m = String::from_str("Agent with ID ");
                let t = id_text(id);
                m.append(t.as_str());
                m.append(" already registered");
                Err(AgentError::Internal(m))
            },
            None => {
                let ghost before = self.view();
                self.agent_info.push(info);
                proof {
                    assert(self.view() =~= before.push(info@));
                    let ks = agent_ids(before);
                    let nk = agent_ids(self.view());
                    assert(nk =~= ks.push(id));
                    assert forall|a: int, b: int|
                        0 <= a < nk.len() && 0 <= b < nk.len() && a != b implies nk[a] != nk[b] by {
                        if a < ks.len() && b < ks.len() {
                        } else if a < ks.len() {
                            assert(nk[a] == before[a].id);
                        } else {
                            assert(nk[b] == before[b].id);
                        }
                    }
                }
                Ok(id)
            },
        }
    }

    /// Removes the agent with id `agent_id`; an id that is not registered is
    /// reported as not found.
    pub fn unregister_agent(&mut self, agent_id: AgentId) -> (r: Result<(), AgentError>)
        requires
            old(self).wf(),
        ensures
            final(self).wf(),
            final(self).view() == without_agent(old(self).view(), agent_id),
            r is Ok <==> has_agent_id(old(self).view(), agent_id),
            r matches Err(e) ==> is_agent_not_found(e, agent_id),
    {
        let ghost before = self.view();
        match self.index_of(agent_id) {
            Some(i) => {
                let _ = self.agent_info.remove(i);
                proof {
                    lemma_without_agent_remove(before, i as int);
                    assert(self.view() =~= before.remove(i as int));
                    let ks = agent_ids(before);
                    let nk = agent_ids(self.view());
                    assert(nk =~= ks.remove(i as int));
                    assert forall|a: int, b: int|
                        0 <= a < nk.len() && 0 <= b < nk.len() && a != b implies nk[a] != nk[b] by {
                        let a2 = if a < i { a } else { a + 1 };
                        let b2 = if b < i { b } else { b + 1 };
                        assert(nk[a] == ks[a2] && nk[b] == ks[b2]);
                    }
                }
                Ok(())
            },
            None => {
                proof {
                    lemma_without_agent_absent(before, agent_id);
                }
                Err(AgentError::agent_not_found(agent_id))
            },
        }
    }

    /// A copy of the record of `agent_id`, or not found.
    pub fn get_agent_info(&self, agent_id: AgentId) -> (r: Result<AgentInfo, AgentError>)
        ensures
            r is Ok <==> has_agent_id(self.view(), agent_id),
            r matches Ok(info) ==> exists|i: int|
                0 <= i < self.view().len() && #[trigger] self.view()[i] == info@ && info.id == agent_id,
            r matches Err(e) ==> is_agent_not_found(e, agent_id),
    {
        match self.index_of(agent_id) {
            Some(i) => Ok(self.agent_info[i].clone()),
            None => Err(AgentError::agent_not_found(agent_id)),
        }
    }

    /// Copies of all records, in registration order.
    pub fn list_agents(&self) -> (r: Vec<AgentInfo>)
        ensures
            info_views(r@) == self.view(),
    {
        let mut r: Vec<AgentInfo> = Vec::new();
        let mut i: usize = 0;
        while i < self.agent_info.len()
            invariant
                i <= self.agent_info@.len(),
                info_views(r@) == self.view().take(i as int),
            decreases self.agent_info.len() - i,
        {
            let ghost r0 = r@;
            let c = self.agent_info[i].clone();
            r.push(c);
            proof {
                assert(r@ =~= r0.push(c));
                assert(info_views(r@) =~= info_views(r0).push(c@));
                assert(info_views(r@) =~= self.view().take(i + 1));
            }
            i = i + 1;
        }
        proof {
            assert(self.view().take(i as int) =~= self.view());
        }
        r
    }

    /// Copies of the records of agents of type `agent_type`, in registration order.
    pub fn find_agents_by_type(&self, agent_type: &AgentType) -> (r: Vec<AgentInfo>)
        ensures
            info_views(r@) == of_type(self.view(), agent_type@),
    {
        let mut r: Vec<AgentInfo> = Vec::new();
        let mut i: usize = 0;
        while i < self.agent_info.len()
            invariant
                i <= self.agent_info@.len(),
                info_views(r@) == of_type(self.view().take(i as int), agent_type@),
            decreases self.agent_info.len() - i,
        {
            let ghost r0 = r@;
            proof {
                assert(self.view().take(i + 1).drop_last() =~= self.view().take(i as int));
            }
            if self.agent_info[i].agent_type.same_as(agent_type) {
                let c = self.agent_info[i].clone();
                r.push(c);
                proof {
                    assert(r@ =~= r0.push(c));
                    assert(info_views(r@) =~= info_views(r0).push(c@));
                }
            }
            i = i + 1;
        }
        proof {
            assert(self.view().take(i as int) =~= self.view());
        }
        r
    }

    /// Copies of the records of agents offering a capability named `capability`,
    /// in registration order.
    pub fn find_agents_by_capability(&self, capability: &str) -> (r: Vec<AgentInfo>)
        ensures
            info_views(r@) == with_capability(self.view(), capability@),
    {
        let mut r: Vec<AgentInfo> = Vec::new();
        let mut i: usize = 0;
        while i < self.agent_info.len()
            invariant
                i <= self.agent_info@.len(),
                info_views(r@) == with_capability(self.view().take(i as int), capability@),
            decreases self.agent_info.len() - i,
        {
            let ghost r0 = r@;
            proof {
                assert(self.view().take(i + 1).drop_last() =~= self.view().take(i as int));
            }
            if self.agent_info[i].capabilities.has(capability) {
                let c = self.agent_info[i].clone();
                r.push(c);
                proof {
                    assert(r@ =~= r0.push(c));
                    assert(info_views(r@) =~= info_views(r0).push(c@));
                }
            }
            i = i + 1;
        }
        proof {
            assert(self.view().take(i as int) =~= self.view());
        }
        r
    }

    /// Direct access to an agent is refused: a registered agent gives an internal
    /// error saying so, an unknown one gives not found.
    pub fn get_agent(&self, agent_id: AgentId) -> (r: Result<(), AgentError>)
        ensures
            r is Err,
            has_agent_id(self.view(), agent_id) ==> (r matches Err(AgentError::Internal(m)) && m@
                == direct_access_message()),
            !has_agent_id(self.view(), agent_id) ==> (r matches Err(e) && is_agent_not_found(
                e,
                agent_id,
            )),
    {
        match self.index_of(agent_id) {
            Some(_) => Err(
                AgentError::Internal(
                    String::from_str("Direct agent access not implemented - use execute_task instead"),
                ),
            ),
            None => Err(AgentError::agent_not_found(agent_id)),
        }
    }

    /// Records the outcome of the health checks of the registered agents, one
    /// per agent, in the order they ran: a failed check counts as Unhealthy with
    /// the error text. Each agent's health becomes its reported health; the
    /// reports are returned.
    pub fn health_check_all(&mut self, checks: Vec<(AgentId, Result<AgentHealth, String>)>) -> (r:
        Vec<(AgentId, AgentHealth)>)
        requires
            old(self).wf(),
            covers_registry(old(self).view(), check_ids(checks@)),
        ensures
            final(self).wf(),
            covers_registry(old(self).view(), report_ids(r@)),
            final(self).view().len() == old(self).view().len(),
            forall|j: int, k: int|
                0 <= j < old(self).view().len() && 0 <= k < r@.len() && #[trigger] r@[k].0
                    == old(self).view()[j].id ==> #[trigger] final(self).view()[j] == (AgentInfoView {
                    health: r@[k].1@,
                    ..old(self).view()[j]
                }),
            r@.len() == checks@.len(),
            forall|i: int|
                0 <= i < r@.len() ==> #[trigger] r@[i].0 == checks@[i].0 && r@[i].1@
                    == checked_health(check_view(checks@[i].1)),
            final(self).view() == apply_health(
                old(self).view(),
                Seq::new(
                    r@.len(),
                    |i: int| (r@[i].0, r@[i].1@),
                ),
            ),
    {
        let ghost before = self.view();
        let mut r: Vec<(AgentId, AgentHealth)> = Vec::new();
        let mut i: usize = 0;
        while i < checks.len()
            invariant
                i <= checks@.len(),
                r@.len() == i,
                self.wf(),
                forall|j: int|
                    0 <= j < i ==> #[trigger] r@[j].0 == checks@[j].0 && r@[j].1@ == checked_health(
                        check_view(checks@[j].1),
                    ),
                self.view() == apply_health(before, Seq::new(r@.len(), |j: int| (r@[j].0, r@[j].1@))),
            decreases checks.len() - i,
        {
            let id = checks[i].0;
            let health = reported_health(&checks[i].1);
            let ghost r0 = r@;
            let ghost v0 = self.view();
            self.set_health(id, &health);
            r.push((id, health));
            proof {
                assert(r@ =~= r0.push((id, health)));
                let s0 = Seq::new(r0.len(), |j: int| (r0[j].0, r0[j].1@));
                let s1 = Seq::new(r@.len(), |j: int| (r@[j].0, r@[j].1@));
                assert(s1.drop_last() =~= s0);
            }
            i = i + 1;
        }
        proof {
            let reports = Seq::new(r@.len(), |j: int| (r@[j].0, r@[j].1@));
            assert(report_ids(r@) =~= check_ids(checks@));
            assert(reports.map_values(|c: (AgentId, HealthView)| c.0) =~= check_ids(checks@));
            assert forall|j: int, k: int|
                0 <= j < before.len() && 0 <= k < r@.len() && #[trigger] r@[k].0 == before[j].id
                    implies #[trigger] self.view()[j] == (AgentInfoView {
                    health: r@[k].1@,
                    ..before[j]
                }) by {
                lemma_apply_health(before, reports, j);
                assert(reports[k].0 == before[j].id);
            }
            if before.len() > 0 {
                lemma_apply_health(before, reports, 0);
            }
        }
        r
    }

    /// Whether `ids` names every registered agent exactly once.
    pub fn covers(&self, ids: &Vec<AgentId>) -> (r: bool)
        ensures
            r == covers_registry(self.view(), ids@),
    {
        if ids.len() != self.agent_info.len() {
            return false;
        }
        let mut i: usize = 0;
        while i < ids.len()
            invariant
                i <= ids@.len(),
                forall|a: int| 0 <= a < i ==> has_agent_id(self.view(), #[trigger] ids@[a]),
                forall|a: int, b: int| 0 <= a < i && 0 <= b < i && a != b ==> ids@[a] != ids@[b],
            decreases ids.len() - i,
        {
            if !self.has_agent(ids[i]) {
                return false;
            }
            let mut j: usize = 0;
            while j < i
                invariant
                    j <= i < ids@.len(),
                    forall|b: int| 0 <= b < j ==> ids@[b] != ids@[i as int],
                decreases i - j,
            {
                if ids[j] == ids[i] {
                    return false;
                }
                j = j + 1;
            }
            i = i + 1;
        }
        true
    }

    /// Sets the health of the record for `id`, if there is one.
    fn set_health(&mut self, id: AgentId, health: &AgentHealth)
        requires
            old(self).wf(),
        ensures
            final(self).wf(),
            final(self).view() == old(self).view().map_values(
                |i: AgentInfoView| if i.id == id { AgentInfoView { health: health@, ..i } } else { i },
            ),
    {
        let ghost before = self.view();
        let ghost target = before.map_values(
            |i: AgentInfoView| if i.id == id { AgentInfoView { health: health@, ..i } } else { i },
        );
        match self.index_of(id) {
            Some(k) => {
                let mut infos: Vec<AgentInfo> = Vec::new();
                std::mem::swap(&mut infos, &mut self.agent_info);
                let mut info = infos.remove(k);
                info.health = health.clone();
                infos.insert(k, info);
                self.agent_info = infos;
                proof {
                    let ks = agent_ids(before);
                    assert forall|j: int| 0 <= j < before.len() && j != k implies before[j].id != id by {
                        assert(ks[j] != ks[k as int]);
                    }
                    assert(self.view() =~= target);
                    assert(agent_ids(self.view()) =~= ks);
                }
            },
            None => {
                proof {
                    assert(before =~= target);
                }
            },
        }
    }

    /// The records, in registration order.
    pub fn agents(&self) -> (r: &Vec<AgentInfo>)
        ensures
            info_views(r@) == self.view(),
    {
        &self.agent_info
    }

    /// The number of registered agents.
    pub fn agent_count(&self) -> (r: usize)
        ensures
            r == self.view().len(),
    {
        self.agent_info.len()
    }

    /// Whether `agent_id` is registered.
    pub fn has_agent(&self, agent_id: AgentId) -> (r: bool)
        ensures
            r == has_agent_id(self.view(), agent_id),
    {
        self.index_of(agent_id).is_some()
    }
}

/// The health a check reports: its value, or Unhealthy with the error text.
fn reported_health(c: &Result<AgentHealth, String>) -> (h: AgentHealth)
    ensures
        h@ == checked_health(check_view(*c)),
{
    match c {
        Ok(h) => h.clone(),
        Err(e) => AgentHealth::Unhealthy(e.clone()),
    }
}

/// The mathematical value of a health check's outcome.
pub open spec fn check_view(c: Result<AgentHealth, String>) -> Result<HealthView, Seq<char>> {
    match c {
        Ok(h) => Ok(h@),
        Err(e) => Err(e@),
    }
}

/// Without a record for `id`, removing its records changes nothing.
pub proof fn lemma_without_agent_absent(s: Seq<AgentInfoView>, id: AgentId)
    requires
        !has_agent_id(s, id),
    ensures
        without_agent(s, id) == s,
    decreases s.len(),
{
    if s.len() > 0 {
        let d = s.drop_last();
        assert(!has_agent_id(d, id)) by {
            if has_agent_id(d, id) {
                let i = choose|i: int| 0 <= i < d.len() && #[trigger] d[i].id == id;
                assert(s[i].id == id);
            }
        }
        lemma_without_agent_absent(d, id);
        assert(d.push(s.last()) =~= s);
    }
}

/// With distinct ids, removing the records for the id at `i` removes just `i`.
proof fn lemma_without_agent_remove(s: Seq<AgentInfoView>, i: int)
    requires
        agent_ids(s).no_duplicates(),
        0 <= i < s.len(),
    ensures
        without_agent(s, s[i].id) == s.remove(i),
    decreases s.len(),
{
    let id = s[i].id;
    let d = s.drop_last();
    let k = agent_ids(s);
    assert(agent_ids(d) =~= k.drop_last());
    if i == s.len() - 1 {
        assert(!has_agent_id(d, id)) by {
            if has_agent_id(d, id) {
                let j = choose|j: int| 0 <= j < d.len() && #[trigger] d[j].id == id;
                assert(k[j] == k[i]);
            }
        }
        lemma_without_agent_absent(d, id);
        assert(s.remove(i) =~= d);
    } else {
        assert(d[i] == s[i]);
        lemma_without_agent_remove(d, i);
        assert(k[s.len() - 1] != k[i]);
        assert(s.remove(i) =~= d.remove(i).push(s.last()));
    }
}

impl Default for AgentManager {
    fn default() -> (m: AgentManager)
        ensures
            m.wf(),
            m.view().len() == 0,
    {
        AgentManager::new()
    }
}

} // verus!
