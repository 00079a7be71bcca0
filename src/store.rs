use vstd::prelude::*;

use crate::agent::{
    fresh_agent, lemma_slot_name, name_at, slot_of, Agent, AgentName, AgentStatus, AgentView,
};
use crate::clock::now_rfc3339;

verus! {

/// Message recorded when a recorded process is found dead on reload.
pub open spec fn stale_message() -> Seq<char> {
    "Process exited unexpectedly"@
}

/// One record per pool slot, in pool order, each keeping the pid / Working
/// equivalence.
pub open spec fn registry_wf(v: Seq<AgentView>) -> bool {
    &&& v.len() == 4
    &&& forall|i: int| 0 <= i < 4 ==> #[trigger] v[i].name == name_at(i)
    &&& forall|i: int| 0 <= i < 4 ==> #[trigger] v[i].pid_consistent()
}

pub open spec fn provisioned(
    a: AgentView,
    id: Seq<char>,
    title: Seq<char>,
    branch: Seq<char>,
    worktree: Seq<char>,
    started_at: Seq<char>,
) -> AgentView {
    AgentView {
        status: AgentStatus::Provisioning,
        work_item_id: Some(id),
        work_item_title: Some(title),
        branch: Some(branch),
        worktree_path: Some(worktree),
        pid: None,
        started_at: Some(started_at),
        error: None,
        ..a
    }
}

pub open spec fn working(a: AgentView, pid: u32) -> AgentView {
    AgentView { status: AgentStatus::Working, pid: Some(pid), ..a }
}

pub open spec fn done(a: AgentView) -> AgentView {
    AgentView { status: AgentStatus::Done, pid: None, ..a }
}

pub open spec fn errored(a: AgentView, message: Seq<char>) -> AgentView {
    AgentView { status: AgentStatus::Error, error: Some(message), pid: None, ..a }
}

pub open spec fn retried(a: AgentView) -> AgentView
    recommends
        a.retry_count < u32::MAX,
{
    AgentView { retry_count: (a.retry_count + 1) as u32, ..a }
}

/// An agent whose recorded process is not among the live ones turns to Error.
pub open spec fn reconciled(a: AgentView, live: Seq<u32>) -> AgentView {
    match a.pid {
        Some(p) => if live.contains(p) {
            a
        } else {
            errored(a, stale_message())
        },
        None => a,
    }
}

/// The record that loading gives a slot: the last record of that agent that
/// keeps the pid / Working equivalence, or a fresh one.
pub open spec fn loaded(records: Seq<AgentView>, n: AgentName) -> AgentView
    decreases records.len(),
{
    if records.len() == 0 {
        fresh_agent(n)
    } else if records.last().name == n && records.last().pid_consistent() {
        records.last()
    } else {
        loaded(records.drop_last(), n)
    }
}

/// The registry that loading the records and probing the live pids gives.
pub open spec fn reloaded(records: Seq<AgentView>, live: Seq<u32>) -> Seq<AgentView> {
    Seq::new(4, |i: int| reconciled(loaded(records, name_at(i)), live))
}

/// Index of the first Idle agent, in pool order.
pub open spec fn first_idle(v: Seq<AgentView>) -> Option<int> {
    if exists|i: int| 0 <= i < v.len() && v[i].status == AgentStatus::Idle {
        Some(
            choose|i: int|
                0 <= i < v.len() && v[i].status == AgentStatus::Idle && forall|j: int|
                    0 <= j < i ==> v[j].status != AgentStatus::Idle,
        )
    } else {
        None
    }
}

/// In a well-formed registry an agent is Working exactly when it has a pid.
pub proof fn lemma_working_iff_pid(v: Seq<AgentView>)
    requires
        registry_wf(v),
    ensures
        forall|i: int|
            0 <= i < 4 ==> (#[trigger] v[i].status == AgentStatus::Working <==> v[i].pid.is_some()),
{
    assert forall|i: int| 0 <= i < 4 implies (#[trigger] v[i].status == AgentStatus::Working
        <==> v[i].pid.is_some()) by {
        assert(v[i].pid_consistent());
    }
}

proof fn lemma_loaded_prefix(v: Seq<AgentView>, i: int, k: int)
    requires
        registry_wf(v),
        0 <= i < k <= 4,
    ensures
        loaded(v.subrange(0, k), name_at(i)) == v[i],
    decreases k,
{
    let p = v.subrange(0, k);
    assert(p.last() == v[k - 1]);
    assert(v[k - 1].name == name_at(k - 1));
    assert(v[k - 1].pid_consistent());
    if k - 1 > i {
        assert(p.drop_last() =~= v.subrange(0, k - 1));
        lemma_loaded_prefix(v, i, k - 1);
    }
}

/// Saving the records of a well-formed registry and loading them again gives
/// every agent back with the same fields, except that an agent whose recorded
/// process is no longer live turns to Error, with the stale-process message and
/// no pid.
pub proof fn lemma_reload_round_trip(v: Seq<AgentView>, live: Seq<u32>)
    requires
        registry_wf(v),
    ensures
        registry_wf(reloaded(v, live)),
        forall|i: int|
            0 <= i < 4 && (v[i].pid is None || live.contains(v[i].pid->0)) ==> #[trigger] reloaded(
                v,
                live,
            )[i] == v[i],
        forall|i: int|
            0 <= i < 4 && v[i].pid is Some && !live.contains(v[i].pid->0) ==> #[trigger] reloaded(
                v,
                live,
            )[i] == (AgentView {
                status: AgentStatus::Error,
                error: Some(stale_message()),
                pid: None,
                ..v[i]
            }),
{
    assert forall|i: int| 0 <= i < 4 implies #[trigger] reloaded(v, live)[i] == reconciled(v[i], live) by {
        lemma_loaded_prefix(v, i, 4);
        assert(v.subrange(0, 4) =~= v);
    }
    assert forall|i: int| 0 <= i < 4 implies #[trigger] reloaded(v, live)[i].name == name_at(i)
        && reloaded(v, live)[i].pid_consistent() by {
        assert(reloaded(v, live)[i] == reconciled(v[i], live));
        assert(v[i].pid_consistent());
    }
}

/// The persisted table of agent state: one record per pool slot.
pub struct AgentStore {
    agents: Vec<Agent>,
}

impl View for AgentStore {
    type V = Seq<AgentView>;

    closed spec fn view(&self) -> Seq<AgentView> {
        self.agents@.map_values(|a: Agent| a@)
    }
}

fn contains_pid(live: &Vec<u32>, pid: u32) -> (r: bool)
    ensures
        r == live@.contains(pid),
{
    let mut i: usize = 0;
    while i < live.len()
        invariant
            i <= live@.len(),
            forall|j: int| 0 <= j < i ==> live@[j] != pid,
        decreases live.len() - i,
    {
        if live[i] == pid {
            return true;
        }
        i += 1;
    }
    false
}

pub proof fn lemma_first_idle(v: Seq<AgentView>, i: int)
    requires
        0 <= i < v.len(),
        v[i].status == AgentStatus::Idle,
        forall|j: int| 0 <= j < i ==> v[j].status != AgentStatus::Idle,
    ensures
        first_idle(v) == Some(i),
{
    let k = choose|k: int|
        0 <= k < v.len() && v[k].status == AgentStatus::Idle && forall|j: int|
            0 <= j < k ==> v[j].status != AgentStatus::Idle;
    assert(0 <= k < v.len() && v[k].status == AgentStatus::Idle && forall|j: int|
        0 <= j < k ==> v[j].status != AgentStatus::Idle);
    if k < i {
        assert(v[k].status != AgentStatus::Idle);
    }
    if i < k {
        assert(v[i].status != AgentStatus::Idle);
    }
}

impl AgentStore {
    /// A registry with every agent fresh and Idle.
    pub fn new() -> (r: AgentStore)
        ensures
            registry_wf(r@),
            forall|i: int| 0 <= i < 4 ==> #[trigger] r@[i] == fresh_agent(name_at(i)),
    {
        let agents = vec![
            Agent::new(AgentName::Ember),
            Agent::new(AgentName::Flow),
            Agent::new(AgentName::Tempest),
            Agent::new(AgentName::Terra),
        ];
        AgentStore { agents }
    }

    /// Builds the registry from loaded records, then turns every agent whose
    /// recorded process is not live to Error.
    pub fn load(records: Vec<Agent>, live_pids: &Vec<u32>) -> (r: AgentStore)
        ensures
            registry_wf(r@),
            r@ == reloaded(records@.map_values(|a: Agent| a@), live_pids@),
    {
        let ghost rs = records@.map_values(|a: Agent| a@);
        let total = records.len();
        let mut store = AgentStore::new();
        let mut rest = records;
        let mut k: usize = 0;
        proof {
            assert forall|i: int| 0 <= i < 4 implies #[trigger] store@[i] == loaded(
                rs.subrange(0, 0),
                name_at(i),
            ) by {}
        }
        while rest.len() > 0
            invariant
                registry_wf(store@),
                rs.len() == total,
                k <= rs.len(),
                rest@.map_values(|a: Agent| a@) =~= rs.subrange(k as int, rs.len() as int),
                forall|i: int|
                    0 <= i < 4 ==> #[trigger] store@[i] == loaded(rs.subrange(0, k as int), name_at(i)),
            decreases rest.len(),
        {
            let ghost old_rest = rest@;
            assert(old_rest.map_values(|a: Agent| a@).len() == old_rest.len());
            assert(k < rs.len());
            assert(old_rest.map_values(|a: Agent| a@)[0] == old_rest[0]@);
            assert(rs.subrange(k as int, rs.len() as int)[0] == rs[k as int]);
            let a = rest.remove(0);
            assert(a@ == rs[k as int]);
            let ghost before = store@;
            let s = a.name.slot();
            if a.is_consistent() {
                store.update_agent(a.name, a);
            }
            proof {
                let pre = rs.subrange(0, k as int);
                let post = rs.subrange(0, k + 1);
                assert(k < rs.len());
                assert(post.drop_last() =~= pre);
                assert(post.last() == rs[k as int]);
                assert forall|i: int| 0 <= i < 4 implies #[trigger] store@[i] == loaded(
                    post,
                    name_at(i),
                ) by {
                    if i == s as int {
                        if !rs[k as int].pid_consistent() {
                            assert(store@[i] == before[i]);
                        }
                    } else {
                        assert(name_at(i) != rs[k as int].name);
                    }
                }
                assert(rest@ =~= old_rest.subrange(1, old_rest.len() as int));
                assert forall|j: int| 0 <= j < rest@.len() implies #[trigger] rest@[j]@ == rs[k + 1 + j] by {
                    assert(rest@[j] == old_rest[j + 1]);
                    assert(old_rest.map_values(|a: Agent| a@)[j + 1] == old_rest[j + 1]@);
                }
                assert(rest@.map_values(|a: Agent| a@) =~= rs.subrange(k + 1, rs.len() as int));
            }
            k += 1;
        }
        assert(rs.subrange(0, k as int) =~= rs);
        store.clean_stale_processes(live_pids);
        proof {
            assert(store@ =~= reloaded(rs, live_pids@));
        }
        store
    }

    /// Every agent whose recorded process is not among `live_pids` turns to
    /// Error with the message "Process exited unexpectedly" and no pid; the
    /// others stay as they are.
    pub fn clean_stale_processes(&mut self, live_pids: &Vec<u32>)
        requires
            registry_wf(old(self)@),
        ensures
            registry_wf(final(self)@),
            forall|i: int|
                0 <= i < 4 ==> #[trigger] final(self)@[i] == reconciled(old(self)@[i], live_pids@),
    {
        let ghost start = self@;
        let mut i: usize = 0;
        while i < 4
            invariant
                registry_wf(self@),
                registry_wf(start),
                i <= 4,
                forall|j: int| 0 <= j < i ==> #[trigger] self@[j] == reconciled(start[j], live_pids@),
                forall|j: int| i <= j < 4 ==> #[trigger] self@[j] == start[j],
            decreases 4 - i,
        {
            proof {
                assert(self@[i as int] == self.agents@[i as int]@);
            }
            let pid = self.agents[i].pid;
            match pid {
                Some(p) => {
                    if !contains_pid(live_pids, p) {
                        let name = self.agents[i].name;
                        self.mark_error(name, "Process exited unexpectedly");
                    }
                },
                None => {},
            }
            i += 1;
        }
    }

    /// Every record, in pool order.
    pub fn get_all(&self) -> (r: Vec<&Agent>)
        requires
            registry_wf(self@),
        ensures
            r@.len() == 4,
            forall|i: int| 0 <= i < 4 ==> #[trigger] r@[i]@ == self@[i],
    {
        let mut r: Vec<&Agent> = Vec::new();
        let mut i: usize = 0;
        while i < 4
            invariant
                registry_wf(self@),
                i <= 4,
                r@.len() == i,
                forall|j: int| 0 <= j < i ==> #[trigger] r@[j]@ == self@[j],
            decreases 4 - i,
        {
            r.push(&self.agents[i]);
            i += 1;
        }
        r
    }

    /// The record of one agent.
    pub fn get_agent(&self, name: AgentName) -> (r: Option<&Agent>)
        requires
            registry_wf(self@),
        ensures
            r is Some,
            r->0@ == self@[slot_of(name)],
    {
        Some(&self.agents[name.slot()])
    }

    /// Replaces the record of one agent.
    pub fn update_agent(&mut self, name: AgentName, agent: Agent)
        requires
            registry_wf(old(self)@),
            agent.name == name,
            agent@.pid_consistent(),
        ensures
            registry_wf(final(self)@),
            final(self)@ == old(self)@.update(slot_of(name), agent@),
    {
        let i = name.slot();
        self.agents.set(i, agent);
        proof {
            assert(self@ =~= old(self)@.update(slot_of(name), agent@));
        }
    }

    /// The first Idle agent in pool order, if any.
    pub fn next_free_agent(&self) -> (r: Option<AgentName>)
        requires
            registry_wf(self@),
        ensures
            r == (match first_idle(self@) {
                Some(i) => Some(name_at(i)),
                None => None,
            }),
    {
        let mut i: usize = 0;
        while i < 4
            invariant
                registry_wf(self@),
                i <= 4,
                forall|j: int| 0 <= j < i ==> #[trigger] self@[j].status != AgentStatus::Idle,
            decreases 4 - i,
        {
            proof {
                assert(self@[i as int] == self.agents@[i as int]@);
            }
            if self.agents[i].status == AgentStatus::Idle {
                proof {
                    lemma_first_idle(self@, i as int);
                    assert(self@[i as int].name == name_at(i as int));
                }
                return Some(self.agents[i].name);
            }
            i += 1;
        }
        None
    }

    /// Marks an agent Provisioning for a work item, with its branch and worktree,
    /// the current time as `started_at`, no error and no pid.
    pub fn mark_provisioning(
        &mut self,
        name: AgentName,
        work_item_id: &str,
        work_item_title: &str,
        branch: &str,
        worktree_path: &str,
    )
        requires
            registry_wf(old(self)@),
        ensures
            registry_wf(final(self)@),
            final(self)@[slot_of(name)].started_at is Some,
            final(self)@ == old(self)@.update(
                slot_of(name),
                provisioned(
                    old(self)@[slot_of(name)],
                    work_item_id@,
                    work_item_title@,
                    branch@,
                    worktree_path@,
                    final(self)@[slot_of(name)].started_at->0,
                ),
            ),
    {
        let started_at = now_rfc3339();
        self.mark_provisioning_at(name, work_item_id, work_item_title, branch, worktree_path, started_at);
    }

    /// As `mark_provisioning`, with the start time given.
    pub fn mark_provisioning_at(
        &mut self,
        name: AgentName,
        work_item_id: &str,
        work_item_title: &str,
        branch: &str,
        worktree_path: &str,
        started_at: String,
    )
        requires
            registry_wf(old(self)@),
        ensures
            registry_wf(final(self)@),
            final(self)@ == old(self)@.update(
                slot_of(name),
                provisioned(
                    old(self)@[slot_of(name)],
                    work_item_id@,
                    work_item_title@,
                    branch@,
                    worktree_path@,
                    started_at@,
                ),
            ),
    {
        let i = name.slot();
        let mut a = self.agents.remove(i);
        a.status = AgentStatus::Provisioning;
        a.work_item_id = Some(work_item_id.to_owned());
        a.work_item_title = Some(work_item_title.to_owned());
        a.branch = Some(branch.to_owned());
        a.worktree_path = Some(worktree_path.to_owned());
        a.pid = None;
        a.started_at = Some(started_at);
        a.error = None;
        self.agents.insert(i, a);
        proof {
            assert(self@ =~= old(self)@.update(slot_of(name), a@));
        }
    }

    /// Marks an agent Working under a process id.
    pub fn mark_working(&mut self, name: AgentName, pid: u32)
        requires
            registry_wf(old(self)@),
        ensures
            registry_wf(final(self)@),
            final(self)@ == old(self)@.update(slot_of(name), working(old(self)@[slot_of(name)], pid)),
    {
        let i = name.slot();
        let mut a = self.agents.remove(i);
        a.status = AgentStatus::Working;
        a.pid = Some(pid);
        self.agents.insert(i, a);
        proof {
            assert(self@ =~= old(self)@.update(slot_of(name), a@));
        }
    }

    /// Marks an agent Done and forgets its pid.
    pub fn mark_done(&mut self, name: AgentName)
        requires
            registry_wf(old(self)@),
        ensures
            registry_wf(final(self)@),
            final(self)@ == old(self)@.update(slot_of(name), done(old(self)@[slot_of(name)])),
    {
        let i = name.slot();
        let mut a = self.agents.remove(i);
        a.status = AgentStatus::Done;
        a.pid = None;
        self.agents.insert(i, a);
        proof {
            assert(self@ =~= old(self)@.update(slot_of(name), a@));
        }
    }

    /// Marks an agent Error with a message and forgets its pid.
    pub fn mark_error(&mut self, name: AgentName, error: &str)
        requires
            registry_wf(old(self)@),
        ensures
            registry_wf(final(self)@),
            final(self)@ == old(self)@.update(
                slot_of(name),
                errored(old(self)@[slot_of(name)], error@),
            ),
    {
        let i = name.slot();
        let mut a = self.agents.remove(i);
        a.status = AgentStatus::Error;
        a.error = Some(error.to_owned());
        a.pid = None;
        self.agents.insert(i, a);
        proof {
            assert(self@ =~= old(self)@.update(slot_of(name), a@));
        }
    }

    /// Adds one to an agent's retry counter and returns the new count.
    pub fn increment_retry(&mut self, name: AgentName) -> (r: u32)
        requires
            registry_wf(old(self)@),
            old(self)@[slot_of(name)].retry_count < u32::MAX,
        ensures
            registry_wf(final(self)@),
            r == old(self)@[slot_of(name)].retry_count + 1,
            final(self)@ == old(self)@.update(slot_of(name), retried(old(self)@[slot_of(name)])),
    {
        let i = name.slot();
        let mut a = self.agents.remove(i);
        let ghost a0 = a@;
        proof {
            assert(a@ == old(self)@[slot_of(name)]);
        }
        a.retry_count = a.retry_count + 1;
        assert(a@ == retried(a0));
        let count = a.retry_count;
        self.agents.insert(i, a);
        proof {
            assert(self@ =~= old(self)@.update(slot_of(name), a@));
            assert forall|j: int| 0 <= j < 4 implies #[trigger] self@[j].pid_consistent() by {
                assert(old(self)@[j].pid_consistent());
                if j != slot_of(name) {
                    assert(self@[j] == old(self)@[j]);
                }
            }
        }
        count
    }

    /// Resets an agent to a fresh Idle record.
    pub fn release(&mut self, name: AgentName)
        requires
            registry_wf(old(self)@),
        ensures
            registry_wf(final(self)@),
            final(self)@ == old(self)@.update(slot_of(name), fresh_agent(name)),
    {
        proof {
            lemma_slot_name(name);
        }
        self.update_agent(name, Agent::new(name));
    }
}

} // verus!
