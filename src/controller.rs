use vstd::prelude::*;
use vstd::string::StringExecFns;

use crate::agent::{
    clone_opt, fresh_agent, lemma_name_slot, lemma_slot_name, name_at, opt_view, slot_of, Agent,
    AgentName, AgentStatus, AgentView,
};
use crate::naming::{branch_name, branch_name_of, worktree_path, worktree_path_of};
use crate::prompt::{build_prompt, prompt_of};
use crate::store::{
    done, errored, first_idle, provisioned, registry_wf, reloaded, working,
    AgentStore,
};
use crate::text::strings_view;
use crate::work_item::{WorkItem, WorkItemView};

verus! {

/// Retries allowed after a failure before an item is given up.
pub const MAX_RETRIES: u32 = 3;

/// What a dispatch has provisioned and what the launch needs.
pub struct DispatchPlan {
    pub agent: AgentName,
    /// Position of the item in the backlog it was taken from.
    pub item_index: usize,
    pub branch: String,
    pub worktree_path: String,
    pub prompt: String,
}

pub open spec fn items_view(v: Seq<WorkItem>) -> Seq<WorkItemView> {
    v.map_values(|w: WorkItem| w@)
}

/// The state of an agent once its dispatch has begun.
pub open spec fn begun(
    a: AgentView,
    item: WorkItemView,
    repo_root: Seq<char>,
    started_at: Seq<char>,
) -> AgentView {
    provisioned(
        a,
        item.id,
        item.title,
        branch_name_of(a.name, item.id, item.title),
        worktree_path_of(repo_root, a.name),
        started_at,
    )
}

/// Whether a plan holds the branch, worktree and prompt of an item for an agent.
pub open spec fn plan_for(
    plan: DispatchPlan,
    agent: AgentName,
    item: WorkItemView,
    repo_root: Seq<char>,
) -> bool {
    &&& plan.agent == agent
    &&& plan.branch@ == branch_name_of(agent, item.id, item.title)
    &&& plan.worktree_path@ == worktree_path_of(repo_root, agent)
    &&& plan.prompt@ == prompt_of(item, agent)
}

/// Starts a dispatch: computes the branch, worktree and prompt, and marks the
/// agent Provisioning for the item.
pub fn begin_dispatch(
    store: &mut AgentStore,
    agent: AgentName,
    item: &WorkItem,
    item_index: usize,
    repo_root: &str,
) -> (plan: DispatchPlan)
    requires
        registry_wf(old(store)@),
    ensures
        registry_wf(final(store)@),
        plan_for(plan, agent, item@, repo_root@),
        plan.item_index == item_index,
        final(store)@[slot_of(agent)].started_at is Some,
        final(store)@ == old(store)@.update(
            slot_of(agent),
            begun(
                old(store)@[slot_of(agent)],
                item@,
                repo_root@,
                final(store)@[slot_of(agent)].started_at->0,
            ),
        ),
{
    let branch = branch_name(agent, item.id.as_str(), item.title.as_str());
    let wt = worktree_path(repo_root, agent);
    proof {
        lemma_slot_name(agent);
        assert(old(store)@[slot_of(agent)].name == agent);
    }
    store.mark_provisioning(agent, item.id.as_str(), item.title.as_str(), branch.as_str(), wt.as_str());
    let prompt = build_prompt(item, agent);
    DispatchPlan { agent, item_index, branch, worktree_path: wt, prompt }
}

/// The names of the agents in a status, in pool order, among the first `k`.
pub open spec fn names_in(v: Seq<AgentView>, st: AgentStatus, k: int) -> Seq<AgentName>
    decreases k,
{
    if k <= 0 {
        Seq::empty()
    } else if v[k - 1].status == st {
        names_in(v, st, k - 1).push(name_at(k - 1))
    } else {
        names_in(v, st, k - 1)
    }
}

/// Whether an agent is busy with, or has just finished, the item.
pub open spec fn holds_item(a: AgentView, id: Seq<char>) -> bool {
    &&& a.work_item_id == Some(id)
    &&& (a.status == AgentStatus::Working || a.status == AgentStatus::Provisioning || a.status
        == AgentStatus::Done)
}

/// An agent as the tick's release step leaves it.
pub open spec fn after_release(a: AgentView) -> AgentView {
    if a.status == AgentStatus::Done {
        fresh_agent(a.name)
    } else {
        a
    }
}

/// The retry counter after one more failure; it stops at the largest value.
pub open spec fn bumped(c: u32) -> u32 {
    if c < u32::MAX {
        (c + 1) as u32
    } else {
        c
    }
}

/// The first backlog item with the given id.
pub open spec fn find_item(items: Seq<WorkItemView>, id: Seq<char>) -> Option<int> {
    if exists|j: int| 0 <= j < items.len() && items[j].id == id {
        Some(
            choose|j: int|
                0 <= j < items.len() && items[j].id == id && forall|k: int|
                    0 <= k < j ==> items[k].id != id,
        )
    } else {
        None
    }
}

/// The first backlog item whose id has not been claimed.
pub open spec fn first_unclaimed(items: Seq<WorkItemView>, claimed: Seq<Seq<char>>) -> Option<int> {
    if exists|j: int| 0 <= j < items.len() && !claimed.contains(items[j].id) {
        Some(
            choose|j: int|
                0 <= j < items.len() && !claimed.contains(items[j].id) && forall|k: int|
                    0 <= k < j ==> claimed.contains(items[k].id),
        )
    } else {
        None
    }
}

/// The claimed ids without every copy of one id.
pub open spec fn without(s: Seq<Seq<char>>, id: Seq<char>) -> Seq<Seq<char>>
    decreases s.len(),
{
    if s.len() == 0 {
        Seq::empty()
    } else if s.last() == id {
        without(s.drop_last(), id)
    } else {
        without(s.drop_last(), id).push(s.last())
    }
}

proof fn lemma_find_item(items: Seq<WorkItemView>, id: Seq<char>, j: int)
    requires
        0 <= j < items.len(),
        items[j].id == id,
        forall|k: int| 0 <= k < j ==> items[k].id != id,
    ensures
        find_item(items, id) == Some(j),
{
    let m = choose|m: int|
        0 <= m < items.len() && items[m].id == id && forall|k: int| 0 <= k < m ==> items[k].id != id;
    assert(0 <= m < items.len() && items[m].id == id && forall|k: int|
        0 <= k < m ==> items[k].id != id);
    if m < j {
        assert(items[m].id != id);
    }
    if j < m {
        assert(items[j].id != id);
    }
}

proof fn lemma_first_unclaimed(items: Seq<WorkItemView>, claimed: Seq<Seq<char>>, j: int)
    requires
        0 <= j < items.len(),
        !claimed.contains(items[j].id),
        forall|k: int| 0 <= k < j ==> claimed.contains(items[k].id),
    ensures
        first_unclaimed(items, claimed) == Some(j),
{
    let m = choose|m: int|
        0 <= m < items.len() && !claimed.contains(items[m].id) && forall|k: int|
            0 <= k < m ==> claimed.contains(items[k].id);
    assert(0 <= m < items.len() && !claimed.contains(items[m].id) && forall|k: int|
        0 <= k < m ==> claimed.contains(items[k].id));
    if m < j {
        assert(claimed.contains(items[m].id));
    }
    if j < m {
        assert(claimed.contains(items[j].id));
    }
}

fn contains_id(claimed: &Vec<String>, id: &String) -> (r: bool)
    ensures
        r == strings_view(claimed@).contains(id@),
{
    let ghost cv = strings_view(claimed@);
    let mut i: usize = 0;
    while i < claimed.len()
        invariant
            cv == strings_view(claimed@),
            i <= claimed@.len(),
            forall|j: int| 0 <= j < i ==> cv[j] != id@,
        decreases claimed.len() - i,
    {
        if claimed[i] == *id {
            assert(cv[i as int] == id@);
            return true;
        }
        i += 1;
    }
    false
}

/// An agent whose retry counter has moved on by one failure.
pub open spec fn counted(a: AgentView) -> AgentView {
    AgentView { retry_count: bumped(a.retry_count), ..a }
}

/// Message recorded when an engine process exits with a failure.
pub open spec fn process_failed_message() -> Seq<char> {
    "Process failed"@
}

/// A successful dispatch from Idle goes through Provisioning, with branch,
/// worktree and start time set, then Working under the process id, then Done
/// when the process exits with success, and the next tick turns it back into a
/// fresh Idle agent with no retries and no item, branch or worktree.
pub proof fn lemma_successful_dispatch_cycle(
    a: AgentView,
    item: WorkItemView,
    repo_root: Seq<char>,
    started_at: Seq<char>,
    pid: u32,
)
    requires
        a.status == AgentStatus::Idle,
    ensures
        ({
            let p = begun(a, item, repo_root, started_at);
            let w = working(p, pid);
            let d = done(w);
            &&& p.status == AgentStatus::Provisioning
            &&& p.work_item_id == Some(item.id)
            &&& p.branch == Some(branch_name_of(a.name, item.id, item.title))
            &&& p.worktree_path == Some(worktree_path_of(repo_root, a.name))
            &&& p.started_at == Some(started_at)
            &&& p.pid is None
            &&& w.status == AgentStatus::Working
            &&& w.pid == Some(pid)
            &&& d.status == AgentStatus::Done
            &&& d.pid is None
            &&& after_release(d) == fresh_agent(a.name)
            &&& after_release(d).status == AgentStatus::Idle
            &&& after_release(d).retry_count == 0
            &&& after_release(d).work_item_id is None
            &&& after_release(d).branch is None
            &&& after_release(d).worktree_path is None
        }),
{
}

/// Repeated failures of an item: dispatching again keeps the retry counter, so
/// from a counter of `k` below `MAX_RETRIES` a failure leads to another
/// dispatch with the counter at `k + 1`; from `MAX_RETRIES` the next failure
/// brings the counter past it, which releases the agent, and a released agent
/// starts again from zero.
pub proof fn lemma_retry_sequence(
    a: AgentView,
    message: Seq<char>,
    item: WorkItemView,
    repo_root: Seq<char>,
    started_at: Seq<char>,
)
    requires
        a.retry_count <= MAX_RETRIES,
    ensures
        ({
            let failed = counted(errored(a, message));
            &&& failed.retry_count == a.retry_count + 1
            &&& a.retry_count < MAX_RETRIES ==> failed.retry_count <= MAX_RETRIES
            &&& a.retry_count < MAX_RETRIES ==> begun(failed, item, repo_root, started_at).retry_count
                == a.retry_count + 1
            &&& a.retry_count == MAX_RETRIES ==> failed.retry_count > MAX_RETRIES
            &&& fresh_agent(a.name).retry_count == 0
        }),
{
}

/// Auto-dispatch hands out only an id that is not claimed, and claims it, so
/// that no later step hands the same id to another agent; and it stops only
/// when no agent is Idle or every backlog item is claimed.
pub proof fn lemma_auto_dispatch_claims(
    v: Seq<AgentView>,
    items: Seq<WorkItemView>,
    claimed: Seq<Seq<char>>,
)
    ensures
        match first_unclaimed(items, claimed) {
            Some(j) => {
                &&& 0 <= j < items.len()
                &&& !claimed.contains(items[j].id)
                &&& forall|k: int|
                    first_unclaimed(items, claimed.push(items[j].id)) == Some(k) ==> items[k].id
                        != items[j].id
            },
            None => forall|j: int| 0 <= j < items.len() ==> claimed.contains(#[trigger] items[j].id),
        },
        first_idle(v) is None ==> forall|i: int|
            0 <= i < v.len() ==> #[trigger] v[i].status != AgentStatus::Idle,
{
    lemma_first_unclaimed_found(items, claimed);
    match first_unclaimed(items, claimed) {
        Some(j) => {
            let c2 = claimed.push(items[j].id);
            assert(c2[claimed.len() as int] == items[j].id);
            assert(c2.contains(items[j].id));
            lemma_first_unclaimed_found(items, c2);
        },
        None => {},
    }
}

proof fn lemma_least_unclaimed(items: Seq<WorkItemView>, claimed: Seq<Seq<char>>, j: int)
    requires
        0 <= j < items.len(),
        !claimed.contains(items[j].id),
    ensures
        exists|m: int|
            0 <= m < items.len() && !claimed.contains(items[m].id) && forall|k: int|
                0 <= k < m ==> claimed.contains(items[k].id),
    decreases j,
{
    if exists|k: int| 0 <= k < j && !claimed.contains(items[k].id) {
        let k = choose|k: int| 0 <= k < j && !claimed.contains(items[k].id);
        lemma_least_unclaimed(items, claimed, k);
    } else {
        assert(forall|k: int| 0 <= k < j ==> claimed.contains(items[k].id));
    }
}

/// What the first unclaimed item is: unclaimed, with every earlier one claimed.
pub proof fn lemma_first_unclaimed_found(items: Seq<WorkItemView>, claimed: Seq<Seq<char>>)
    ensures
        match first_unclaimed(items, claimed) {
            Some(j) => 0 <= j < items.len() && !claimed.contains(items[j].id),
            None => forall|j: int| 0 <= j < items.len() ==> claimed.contains(#[trigger] items[j].id),
        },
{
    if exists|j: int| 0 <= j < items.len() && !claimed.contains(items[j].id) {
        let j = choose|j: int| 0 <= j < items.len() && !claimed.contains(items[j].id);
        lemma_least_unclaimed(items, claimed, j);
    }
}

fn find_item_index(backlog: &Vec<WorkItem>, id: &String) -> (r: Option<usize>)
    ensures
        match r {
            Some(j) => j < backlog@.len() && find_item(items_view(backlog@), id@) == Some(j as int),
            None => find_item(items_view(backlog@), id@) is None,
        },
{
    let ghost items = items_view(backlog@);
    let mut i: usize = 0;
    while i < backlog.len()
        invariant
            items == items_view(backlog@),
            i <= backlog@.len(),
            forall|k: int| 0 <= k < i ==> items[k].id != id@,
        decreases backlog.len() - i,
    {
        if backlog[i].id == *id {
            proof {
                lemma_find_item(items, id@, i as int);
            }
            return Some(i);
        }
        i += 1;
    }
    None
}

fn first_unclaimed_index(backlog: &Vec<WorkItem>, claimed: &Vec<String>) -> (r: Option<usize>)
    ensures
        match r {
            Some(j) => j < backlog@.len() && first_unclaimed(items_view(backlog@), strings_view(claimed@))
                == Some(j as int),
            None => first_unclaimed(items_view(backlog@), strings_view(claimed@)) is None,
        },
{
    let ghost items = items_view(backlog@);
    let ghost cl = strings_view(claimed@);
    let mut i: usize = 0;
    while i < backlog.len()
        invariant
            items == items_view(backlog@),
            cl == strings_view(claimed@),
            i <= backlog@.len(),
            forall|k: int| 0 <= k < i ==> cl.contains(#[trigger] items[k].id),
        decreases backlog.len() - i,
    {
        if !contains_id(claimed, &backlog[i].id) {
            proof {
                lemma_first_unclaimed(items, cl, i as int);
            }
            return Some(i);
        }
        i += 1;
    }
    None
}

/// How the tick handled one agent in Error.
pub enum RetryOutcome {
    /// The same item was dispatched again.
    Redispatch { count: u32, plan: DispatchPlan },
    /// The item has left the backlog; the agent was released.
    ItemGone { count: u32 },
    /// The retries are used up; the agent was released and the item abandoned.
    GaveUp { count: u32 },
    /// The agent holds no item; only its counter moved.
    NoItem { count: u32 },
}

impl RetryOutcome {
    pub open spec fn count_of(&self) -> u32 {
        match self {
            RetryOutcome::Redispatch { count, .. } => *count,
            RetryOutcome::ItemGone { count } => *count,
            RetryOutcome::GaveUp { count } => *count,
            RetryOutcome::NoItem { count } => *count,
        }
    }
}

/// What a manual dispatch of a selected item did.
pub enum SelectOutcome {
    /// There is no item at the selected position.
    NoItem,
    /// No agent is Idle.
    AllBusy,
    Dispatched(DispatchPlan),
}

/// What clearing an agent did.
pub enum ClearOutcome {
    AlreadyIdle,
    /// The agent was released; its former process and item are handed back.
    Cleared { pid: Option<u32>, work_item_id: Option<String>, work_item_title: Option<String> },
}

/// The single owner of the registry and of the set of claimed item ids.
pub struct Controller {
    store: AgentStore,
    claimed: Vec<String>,
    auto_mode: bool,
}

impl Controller {
    pub closed spec fn agents(&self) -> Seq<AgentView> {
        self.store@
    }

    /// Ids of the items that have been handed to an agent.
    pub closed spec fn claimed_ids(&self) -> Seq<Seq<char>> {
        strings_view(self.claimed@)
    }

    /// Whether ticks retry failed agents and dispatch to free ones.
    pub closed spec fn is_auto(&self) -> bool {
        self.auto_mode
    }

    pub fn auto_mode(&self) -> (r: bool)
        ensures
            r == self.is_auto(),
    {
        self.auto_mode
    }

    /// Turns automatic retry and dispatch on or off.
    pub fn set_auto_mode(&mut self, on: bool)
        ensures
            final(self).is_auto() == on,
            final(self).agents() == old(self).agents(),
            final(self).claimed_ids() == old(self).claimed_ids(),
    {
        self.auto_mode = on;
    }

    pub fn new(store: AgentStore) -> (r: Controller)
        requires
            registry_wf(store@),
        ensures
            r.agents() == store@,
            r.claimed_ids().len() == 0,
            !r.is_auto(),
    {
        Controller { store, claimed: Vec::new(), auto_mode: false }
    }

    pub fn store(&self) -> (r: &AgentStore)
        ensures
            r@ == self.agents(),
    {
        &self.store
    }

    /// Replaces the registry with loaded records, reconciled with the live pids.
    pub fn reload(&mut self, records: Vec<Agent>, live_pids: &Vec<u32>)
        ensures
            registry_wf(final(self).agents()),
            final(self).agents() == reloaded(records@.map_values(|a: Agent| a@), live_pids@),
            final(self).claimed_ids() == old(self).claimed_ids(),
            final(self).is_auto() == old(self).is_auto(),
    {
        self.store = AgentStore::load(records, live_pids);
    }

    /// Releases every Done agent and returns their names, in pool order.
    pub fn release_done(&mut self) -> (r: Vec<AgentName>)
        requires
            registry_wf(old(self).agents()),
        ensures
            registry_wf(final(self).agents()),
            r@ == names_in(old(self).agents(), AgentStatus::Done, 4),
            forall|i: int|
                0 <= i < 4 ==> #[trigger] final(self).agents()[i] == after_release(
                    old(self).agents()[i],
                ),
            final(self).claimed_ids() == old(self).claimed_ids(),
            final(self).is_auto() == old(self).is_auto(),
    {
        let ghost start = self.store@;
        let mut r: Vec<AgentName> = Vec::new();
        let mut i: usize = 0;
        while i < 4
            invariant
                registry_wf(self.store@),
                registry_wf(start),
                i <= 4,
                r@ == names_in(start, AgentStatus::Done, i as int),
                forall|j: int| 0 <= j < i ==> #[trigger] self.store@[j] == after_release(start[j]),
                forall|j: int| i <= j < 4 ==> #[trigger] self.store@[j] == start[j],
                self.claimed == old(self).claimed,
                self.auto_mode == old(self).auto_mode,
            decreases 4 - i,
        {
            let name = self.store.get_agent(name_of_slot(i)).unwrap().name;
            let status = self.store.get_agent(name_of_slot(i)).unwrap().status;
            proof {
                lemma_slot_name(name_at(i as int));
            }
            if status == AgentStatus::Done {
                self.store.release(name);
                r.push(name);
            }
            i += 1;
        }
        r
    }

    /// The agents in Error, in pool order.
    pub fn errored_agents(&self) -> (r: Vec<AgentName>)
        requires
            registry_wf(self.agents()),
        ensures
            r@ == names_in(self.agents(), AgentStatus::Error, 4),
    {
        let mut r: Vec<AgentName> = Vec::new();
        let mut i: usize = 0;
        while i < 4
            invariant
                registry_wf(self.store@),
                i <= 4,
                r@ == names_in(self.store@, AgentStatus::Error, i as int),
            decreases 4 - i,
        {
            let a = self.store.get_agent(name_of_slot(i)).unwrap();
            proof {
                assert(a@ == self.store@[i as int]);
                assert(self.store@[i as int].name == name_at(i as int));
            }
            if a.status == AgentStatus::Error {
                r.push(a.name);
            }
            i += 1;
        }
        r
    }

    /// The first agent, in pool order, that holds the item and is
    /// Provisioning, Working or Done.
    pub fn assigned_agent(&self, item_id: &str) -> (r: Option<AgentName>)
        requires
            registry_wf(self.agents()),
        ensures
            match r {
                Some(n) => holds_item(self.agents()[slot_of(n)], item_id@) && forall|j: int|
                    0 <= j < slot_of(n) ==> !holds_item(#[trigger] self.agents()[j], item_id@),
                None => forall|j: int| 0 <= j < 4 ==> !holds_item(#[trigger] self.agents()[j], item_id@),
            },
    {
        let wanted = String::from_str(item_id);
        let mut i: usize = 0;
        while i < 4
            invariant
                registry_wf(self.store@),
                wanted@ == item_id@,
                i <= 4,
                forall|j: int| 0 <= j < i ==> !holds_item(#[trigger] self.store@[j], item_id@),
            decreases 4 - i,
        {
            let a = self.store.get_agent(name_of_slot(i)).unwrap();
            proof {
                assert(a@ == self.store@[i as int]);
                assert(self.store@[i as int].name == name_at(i as int));
            }
            let active = match a.status {
                AgentStatus::Working | AgentStatus::Provisioning | AgentStatus::Done => true,
                _ => false,
            };
            if active {
                match &a.work_item_id {
                    Some(id) => {
                        if *id == wanted {
                            return Some(a.name);
                        }
                    },
                    None => {},
                }
            }
            i += 1;
        }
        None
    }

    /// Handles one agent in Error on a tick: its retry counter moves on; past
    /// `MAX_RETRIES` the agent is released and its item abandoned; otherwise
    /// its item is dispatched again if it is still in the backlog, and the
    /// agent is released if it is not.
    pub fn retry_agent(&mut self, name: AgentName, backlog: &Vec<WorkItem>, repo_root: &str) -> (r:
        RetryOutcome)
        requires
            registry_wf(old(self).agents()),
        ensures
            registry_wf(final(self).agents()),
            final(self).claimed_ids() == old(self).claimed_ids(),
            final(self).is_auto() == old(self).is_auto(),
            ({
                let a = old(self).agents()[slot_of(name)];
                let b = counted(a);
                let items = items_view(backlog@);
                &&& r.count_of() == b.retry_count
                &&& b.retry_count > MAX_RETRIES ==> r is GaveUp && final(self).agents()
                    == old(self).agents().update(slot_of(name), fresh_agent(name))
                &&& b.retry_count <= MAX_RETRIES && (a.work_item_id is None || a.work_item_title is None)
                    ==> r is NoItem && final(self).agents() == old(self).agents().update(
                    slot_of(name),
                    b,
                )
                &&& b.retry_count <= MAX_RETRIES && a.work_item_id is Some && a.work_item_title is Some
                    && find_item(items, a.work_item_id->0) is None ==> r is ItemGone && final(self).agents() == old(self).agents().update(slot_of(name), fresh_agent(name))
                &&& b.retry_count <= MAX_RETRIES && a.work_item_id is Some && a.work_item_title is Some
                    && find_item(items, a.work_item_id->0) is Some ==> match r {
                    RetryOutcome::Redispatch { plan, .. } => {
                        let j = find_item(items, a.work_item_id->0)->0;
                        &&& plan_for(plan, name, items[j], repo_root@)
                        &&& plan.item_index == j
                        &&& final(self).agents()[slot_of(name)].started_at is Some
                        &&& final(self).agents() == old(self).agents().update(
                            slot_of(name),
                            begun(
                                b,
                                items[j],
                                repo_root@,
                                final(self).agents()[slot_of(name)].started_at->0,
                            ),
                        )
                    },
                    _ => false,
                }
            }),
    {
        proof {
            lemma_slot_name(name);
        }
        let a = self.store.get_agent(name).unwrap();
        let old_count = a.retry_count;
        let id = clone_opt(&a.work_item_id);
        let has_title = a.work_item_title.is_some();
        let ghost a0 = self.store@[slot_of(name)];
        let ghost s0 = self.store@;
        let count = if old_count < u32::MAX {
            self.store.increment_retry(name)
        } else {
            old_count
        };
        proof {
            assert(self.store@ == s0.update(slot_of(name), counted(a0)));
        }
        if count > MAX_RETRIES {
            self.store.release(name);
            return RetryOutcome::GaveUp { count };
        }
        match id {
            None => RetryOutcome::NoItem { count },
            Some(id) => {
                if !has_title {
                    return RetryOutcome::NoItem { count };
                }
                match find_item_index(backlog, &id) {
                    Some(j) => {
                        let plan = begin_dispatch(&mut self.store, name, &backlog[j], j, repo_root);
                        RetryOutcome::Redispatch { count, plan }
                    },
                    None => {
                        self.store.release(name);
                        RetryOutcome::ItemGone { count }
                    },
                }
            },
        }
    }

    /// One step of auto-dispatch: the first Idle agent takes the first backlog
    /// item whose id is not yet claimed, and that id becomes claimed. Nothing
    /// happens when no agent is Idle or every item is claimed.
    pub fn auto_dispatch_step(&mut self, backlog: &Vec<WorkItem>, repo_root: &str) -> (r: Option<
        DispatchPlan,
    >)
        requires
            registry_wf(old(self).agents()),
        ensures
            registry_wf(final(self).agents()),
            final(self).is_auto() == old(self).is_auto(),
            ({
                let items = items_view(backlog@);
                match (first_idle(old(self).agents()), first_unclaimed(items, old(self).claimed_ids())) {
                    (Some(i), Some(j)) => {
                        &&& r is Some
                        &&& plan_for(r->0, name_at(i), items[j], repo_root@)
                        &&& r->0.item_index == j
                        &&& final(self).claimed_ids() == old(self).claimed_ids().push(items[j].id)
                        &&& final(self).agents()[i].started_at is Some
                        &&& final(self).agents() == old(self).agents().update(
                            i,
                            begun(old(self).agents()[i], items[j], repo_root@, final(self).agents()[i].started_at->0),
                        )
                    },
                    _ => {
                        &&& r is None
                        &&& final(self).agents() == old(self).agents()
                        &&& final(self).claimed_ids() == old(self).claimed_ids()
                    },
                }
            }),
    {
        let free = self.store.next_free_agent();
        let agent = match free {
            Some(a) => a,
            None => return None,
        };
        let j = match first_unclaimed_index(backlog, &self.claimed) {
            Some(j) => j,
            None => return None,
        };
        proof {
            let i = first_idle(self.store@)->0;
            lemma_name_slot(i);
        }
        let id = backlog[j].id.clone();
        self.claimed.push(id);
        proof {
            assert(strings_view(self.claimed@) =~= strings_view(old(self).claimed@).push(backlog@[j as int].id@));
        }
        let plan = begin_dispatch(&mut self.store, agent, &backlog[j], j, repo_root);
        Some(plan)
    }

    /// Dispatches the selected backlog item to the first Idle agent and claims
    /// its id.
    pub fn dispatch_selected(&mut self, backlog: &Vec<WorkItem>, selected: usize, repo_root: &str) -> (r:
        SelectOutcome)
        requires
            registry_wf(old(self).agents()),
        ensures
            registry_wf(final(self).agents()),
            final(self).is_auto() == old(self).is_auto(),
            ({
                let items = items_view(backlog@);
                if selected >= backlog@.len() {
                    &&& r is NoItem
                    &&& final(self).agents() == old(self).agents()
                    &&& final(self).claimed_ids() == old(self).claimed_ids()
                } else {
                    match first_idle(old(self).agents()) {
                        None => {
                            &&& r is AllBusy
                            &&& final(self).agents() == old(self).agents()
                            &&& final(self).claimed_ids() == old(self).claimed_ids()
                        },
                        Some(i) => match r {
                            SelectOutcome::Dispatched(plan) => {
                                &&& plan_for(plan, name_at(i), items[selected as int], repo_root@)
                                &&& plan.item_index == selected
                                &&& final(self).claimed_ids() == old(self).claimed_ids().push(
                                    items[selected as int].id,
                                )
                                &&& final(self).agents()[i].started_at is Some
                                &&& final(self).agents() == old(self).agents().update(
                                    i,
                                    begun(
                                        old(self).agents()[i],
                                        items[selected as int],
                                        repo_root@,
                                        final(self).agents()[i].started_at->0,
                                    ),
                                )
                            },
                            _ => false,
                        },
                    }
                }
            }),
    {
        if selected >= backlog.len() {
            return SelectOutcome::NoItem;
        }
        let agent = match self.store.next_free_agent() {
            Some(a) => a,
            None => return SelectOutcome::AllBusy,
        };
        proof {
            let i = first_idle(self.store@)->0;
            lemma_name_slot(i);
        }
        let id = backlog[selected].id.clone();
        self.claimed.push(id);
        proof {
            assert(strings_view(self.claimed@) =~= strings_view(old(self).claimed@).push(
                backlog@[selected as int].id@,
            ));
        }
        let plan = begin_dispatch(&mut self.store, agent, &backlog[selected], selected, repo_root);
        SelectOutcome::Dispatched(plan)
    }

    /// Records how a launch ended: Working under the process id, or Error with
    /// the failure message.
    pub fn finish_dispatch(&mut self, agent: AgentName, launched: Result<u32, String>)
        requires
            registry_wf(old(self).agents()),
        ensures
            registry_wf(final(self).agents()),
            final(self).claimed_ids() == old(self).claimed_ids(),
            final(self).is_auto() == old(self).is_auto(),
            final(self).agents() == old(self).agents().update(
                slot_of(agent),
                match launched {
                    Ok(pid) => working(old(self).agents()[slot_of(agent)], pid),
                    Err(m) => errored(old(self).agents()[slot_of(agent)], m@),
                },
            ),
    {
        match launched {
            Ok(pid) => self.store.mark_working(agent, pid),
            Err(m) => self.store.mark_error(agent, m.as_str()),
        }
    }

    /// Records the exit of an agent's engine process: Done on success, Error
    /// with "Process failed" otherwise. The notice is applied to the agent's
    /// current record: one that arrives after the agent was cleared or given
    /// another item is not told apart from a current one.
    pub fn process_exited(&mut self, agent: AgentName, success: bool)
        requires
            registry_wf(old(self).agents()),
        ensures
            registry_wf(final(self).agents()),
            final(self).claimed_ids() == old(self).claimed_ids(),
            final(self).is_auto() == old(self).is_auto(),
            final(self).agents() == old(self).agents().update(
                slot_of(agent),
                if success {
                    done(old(self).agents()[slot_of(agent)])
                } else {
                    errored(old(self).agents()[slot_of(agent)], process_failed_message())
                },
            ),
    {
        if success {
            self.store.mark_done(agent);
        } else {
            self.store.mark_error(agent, "Process failed");
        }
    }

    /// Clears an agent that is not Idle: releases it, frees its item id for
    /// another dispatch, and hands back its process id and item so that the
    /// caller can stop the process and log the clearing.
    pub fn clear_agent(&mut self, name: AgentName) -> (r: ClearOutcome)
        requires
            registry_wf(old(self).agents()),
        ensures
            registry_wf(final(self).agents()),
            final(self).is_auto() == old(self).is_auto(),
            ({
                let a = old(self).agents()[slot_of(name)];
                if a.status == AgentStatus::Idle {
                    &&& r is AlreadyIdle
                    &&& final(self).agents() == old(self).agents()
                    &&& final(self).claimed_ids() == old(self).claimed_ids()
                } else {
                    match r {
                        ClearOutcome::Cleared { pid, work_item_id, work_item_title } => {
                            &&& pid == a.pid
                            &&& opt_view(work_item_id) == a.work_item_id
                            &&& opt_view(work_item_title) == a.work_item_title
                            &&& final(self).agents() == old(self).agents().update(
                                slot_of(name),
                                fresh_agent(name),
                            )
                            &&& final(self).claimed_ids() == match a.work_item_id {
                                Some(id) => without(old(self).claimed_ids(), id),
                                None => old(self).claimed_ids(),
                            }
                        },
                        _ => false,
                    }
                }
            }),
    {
        let a = self.store.get_agent(name).unwrap();
        if a.status == AgentStatus::Idle {
            return ClearOutcome::AlreadyIdle;
        }
        let pid = a.pid;
        let work_item_id = clone_opt(&a.work_item_id);
        let work_item_title = clone_opt(&a.work_item_title);
        match &work_item_id {
            Some(id) => {
                let kept = remove_id(&self.claimed, id);
                self.claimed = kept;
            },
            None => {},
        }
        self.store.release(name);
        ClearOutcome::Cleared { pid, work_item_id, work_item_title }
    }
}

fn remove_id(claimed: &Vec<String>, id: &String) -> (r: Vec<String>)
    ensures
        strings_view(r@) == without(strings_view(claimed@), id@),
{
    let ghost cv = strings_view(claimed@);
    let mut r: Vec<String> = Vec::new();
    let mut i: usize = 0;
    while i < claimed.len()
        invariant
            cv == strings_view(claimed@),
            i <= claimed@.len(),
            strings_view(r@) == without(cv.subrange(0, i as int), id@),
        decreases claimed.len() - i,
    {
        proof {
            assert(cv.subrange(0, i + 1).drop_last() =~= cv.subrange(0, i as int));
            assert(cv.subrange(0, i + 1).last() == claimed@[i as int]@);
        }
        if claimed[i] != *id {
            let c = claimed[i].clone();
            r.push(c);
            proof {
                assert(strings_view(r@) =~= strings_view(r@.drop_last()).push(c@));
            }
        }
        i += 1;
    }
    assert(cv.subrange(0, claimed@.len() as int) =~= cv);
    r
}

fn name_of_slot(i: usize) -> (r: AgentName)
    requires
        i < 4,
    ensures
        r == name_at(i as int),
        slot_of(r) == i,
{
    if i == 0 {
        AgentName::Ember
    } else if i == 1 {
        AgentName::Flow
    } else if i == 2 {
        AgentName::Tempest
    } else {
        AgentName::Terra
    }
}

} // verus!
