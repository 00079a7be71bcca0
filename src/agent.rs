use vstd::prelude::*;

verus! {

/// The fixed pool of agents, in declared order.
#[derive(Debug, Clone, Copy, PartialEq, Eq, Hash, Structural)]
pub enum AgentName {
    Ember,
    Flow,
    Tempest,
    Terra,
}

/// Number of slots in the pool.
pub const POOL_SIZE: usize = 4;

/// Position of an agent in the declared pool order.
pub open spec fn slot_of(n: AgentName) -> int {
    match n {
        AgentName::Ember => 0,
        AgentName::Flow => 1,
        AgentName::Tempest => 2,
        AgentName::Terra => 3,
    }
}

/// The agent at a position of the declared pool order.
pub open spec fn name_at(i: int) -> AgentName
    recommends
        0 <= i < 4,
{
    if i == 0 {
        AgentName::Ember
    } else if i == 1 {
        AgentName::Flow
    } else if i == 2 {
        AgentName::Tempest
    } else {
        AgentName::Terra
    }
}

/// The lowercase identity of an agent.
pub open spec fn name_str(n: AgentName) -> Seq<char> {
    match n {
        AgentName::Ember => "ember"@,
        AgentName::Flow => "flow"@,
        AgentName::Tempest => "tempest"@,
        AgentName::Terra => "terra"@,
    }
}

/// The capitalised name shown to users.
pub open spec fn display_str(n: AgentName) -> Seq<char> {
    match n {
        AgentName::Ember => "Ember"@,
        AgentName::Flow => "Flow"@,
        AgentName::Tempest => "Tempest"@,
        AgentName::Terra => "Terra"@,
    }
}

/// The emoji shown beside an agent's name.
pub open spec fn emoji_str(n: AgentName) -> Seq<char> {
    match n {
        AgentName::Ember => "\u{1F468}\u{200D}\u{1F692}"@,
        AgentName::Flow => "\u{1F3C4}\u{200D}\u{2640}\u{FE0F}"@,
        AgentName::Tempest => "\u{1F9DD}\u{200D}\u{2640}\u{FE0F}"@,
        AgentName::Terra => "\u{1F469}\u{200D}\u{1F33E}"@,
    }
}

impl AgentName {
    /// Every agent, in declared pool order.
    pub fn all() -> (r: Vec<AgentName>)
        ensures
            r@.len() == 4,
            forall|i: int| 0 <= i < 4 ==> r@[i] == name_at(i),
    {
        vec![AgentName::Ember, AgentName::Flow, AgentName::Tempest, AgentName::Terra]
    }

    /// Position of this agent in the pool order.
    pub fn slot(&self) -> (r: usize)
        ensures
            r as int == slot_of(*self),
            r < 4,
            name_at(r as int) == *self,
    {
        match self {
            AgentName::Ember => 0,
            AgentName::Flow => 1,
            AgentName::Tempest => 2,
            AgentName::Terra => 3,
        }
    }

    pub fn as_str(&self) -> (r: &'static str)
        ensures
            r@ == name_str(*self),
    {
        match self {
            AgentName::Ember => "ember",
            AgentName::Flow => "flow",
            AgentName::Tempest => "tempest",
            AgentName::Terra => "terra",
        }
    }

    pub fn display_name(&self) -> (r: &'static str)
        ensures
            r@ == display_str(*self),
    {
        match self {
            AgentName::Ember => "Ember",
            AgentName::Flow => "Flow",
            AgentName::Tempest => "Tempest",
            AgentName::Terra => "Terra",
        }
    }

    pub fn emoji(&self) -> (r: &'static str)
        ensures
            r@ == emoji_str(*self),
    {
        match self {
            AgentName::Ember => "\u{1F468}\u{200D}\u{1F692}",
            AgentName::Flow => "\u{1F3C4}\u{200D}\u{2640}\u{FE0F}",
            AgentName::Tempest => "\u{1F9DD}\u{200D}\u{2640}\u{FE0F}",
            AgentName::Terra => "\u{1F469}\u{200D}\u{1F33E}",
        }
    }
}

pub proof fn lemma_slot_name(n: AgentName)
    ensures
        0 <= slot_of(n) < 4,
        name_at(slot_of(n)) == n,
{
}

pub proof fn lemma_name_slot(i: int)
    requires
        0 <= i < 4,
    ensures
        slot_of(name_at(i)) == i,
{
}

/// The lifecycle state of one agent slot.
#[derive(Debug, Clone, Copy, PartialEq, Eq, Structural)]
pub enum AgentStatus {
    Idle,
    Provisioning,
    Working,
    Done,
    Error,
}

pub open spec fn status_str(s: AgentStatus) -> Seq<char> {
    match s {
        AgentStatus::Idle => "idle"@,
        AgentStatus::Provisioning => "provisioning"@,
        AgentStatus::Working => "working"@,
        AgentStatus::Done => "done"@,
        AgentStatus::Error => "error"@,
    }
}

impl AgentStatus {
    /// The lowercase label of a status.
    pub fn as_str(&self) -> (r: &'static str)
        ensures
            r@ == status_str(*self),
    {
        match self {
            AgentStatus::Idle => "idle",
            AgentStatus::Provisioning => "provisioning",
            AgentStatus::Working => "working",
            AgentStatus::Done => "done",
            AgentStatus::Error => "error",
        }
    }
}

/// The state of one pool slot.
#[derive(Debug, Clone)]
pub struct Agent {
    pub name: AgentName,
    pub status: AgentStatus,
    pub work_item_id: Option<String>,
    pub work_item_title: Option<String>,
    pub branch: Option<String>,
    pub worktree_path: Option<String>,
    pub pid: Option<u32>,
    pub started_at: Option<String>,
    pub error: Option<String>,
    pub retry_count: u32,
}

/// The mathematical value of an agent record.
pub struct AgentView {
    pub name: AgentName,
    pub status: AgentStatus,
    pub work_item_id: Option<Seq<char>>,
    pub work_item_title: Option<Seq<char>>,
    pub branch: Option<Seq<char>>,
    pub worktree_path: Option<Seq<char>>,
    pub pid: Option<u32>,
    pub started_at: Option<Seq<char>>,
    pub error: Option<Seq<char>>,
    pub retry_count: u32,
}

pub open spec fn opt_view(o: Option<String>) -> Option<Seq<char>> {
    match o {
        Some(s) => Some(s@),
        None => None,
    }
}

impl View for Agent {
    type V = AgentView;

    open spec fn view(&self) -> AgentView {
        AgentView {
            name: self.name,
            status: self.status,
            work_item_id: opt_view(self.work_item_id),
            work_item_title: opt_view(self.work_item_title),
            branch: opt_view(self.branch),
            worktree_path: opt_view(self.worktree_path),
            pid: self.pid,
            started_at: opt_view(self.started_at),
            error: opt_view(self.error),
            retry_count: self.retry_count,
        }
    }
}

/// A freshly released agent: Idle, with no assignment and no retries.
pub open spec fn fresh_agent(n: AgentName) -> AgentView {
    AgentView {
        name: n,
        status: AgentStatus::Idle,
        work_item_id: None,
        work_item_title: None,
        branch: None,
        worktree_path: None,
        pid: None,
        started_at: None,
        error: None,
        retry_count: 0,
    }
}

impl AgentView {
    /// A process id is recorded exactly when the agent is Working.
    pub open spec fn pid_consistent(&self) -> bool {
        (self.status == AgentStatus::Working) <==> self.pid.is_some()
    }
}

impl Agent {
    pub fn new(name: AgentName) -> (r: Agent)
        ensures
            r@ == fresh_agent(name),
    {
        Agent {
            name,
            status: AgentStatus::Idle,
            work_item_id: None,
            work_item_title: None,
            branch: None,
            worktree_path: None,
            pid: None,
            started_at: None,
            error: None,
            retry_count: 0,
        }
    }

    /// Whether the record keeps the pid / Working equivalence.
    pub fn is_consistent(&self) -> (r: bool)
        ensures
            r == self@.pid_consistent(),
    {
        match self.status {
            AgentStatus::Working => self.pid.is_some(),
            _ => self.pid.is_none(),
        }
    }
}

/// A copy of an optional string with the same value.
pub fn clone_opt(o: &Option<String>) -> (r: Option<String>)
    ensures
        opt_view(r) == opt_view(*o),
{
    match o {
        Some(s) => Some(s.clone()),
        None => None,
    }
}

} // verus!
