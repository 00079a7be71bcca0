use vstd::prelude::*;

use crate::agent::AgentName;
use crate::work_item::WorkItem;

verus! {

/// A key press, as the dashboard understands it.
#[derive(Debug, Clone, Copy, PartialEq, Eq, Structural)]
pub enum KeyAction {
    Up,
    Down,
    Left,
    Right,
    Select,
    Escape,
    Dispatch,
    ToggleAutoMode,
    Refresh,
    ClearAgent,
    ClearLogs,
    ActivateInput,
    Char(char),
    Backspace,
    Tab,
}

/// What the dashboard shows.
#[derive(Debug, Clone, Copy, PartialEq, Eq, Structural)]
pub enum ViewMode {
    BoardSelection,
    Items,
    Agents,
    AgentDetail(AgentName),
}

/// One entry of the controller's action queue.
#[derive(Debug, Clone)]
pub enum Action {
    Key(KeyAction),
    Tick,
    WorkItemsLoaded(Vec<WorkItem>),
    FetchError(String),
    PollAgents,
    AgentProcessExited(AgentName, bool),
    AgentResponse(AgentName, String),
    AgentResponseError(AgentName, String),
    TaskCreated(WorkItem),
    TaskCreateError(String),
    Quit,
}

} // verus!
