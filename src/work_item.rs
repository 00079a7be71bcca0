use vstd::prelude::*;
use vstd::string::StringExecFns;

use crate::agent::opt_view;
use crate::text::strings_view;

verus! {

/// A unit of work fetched from or created in a tracker.
#[derive(Debug, Clone)]
pub struct WorkItem {
    pub id: String,
    /// Id of the item in its source system, used for calls against it.
    pub source_id: Option<String>,
    pub title: String,
    pub description: Option<String>,
    pub status: Option<String>,
    pub priority: Option<String>,
    pub labels: Vec<String>,
    pub source: String,
    pub team: Option<String>,
    pub url: Option<String>,
}

pub struct WorkItemView {
    pub id: Seq<char>,
    pub source_id: Option<Seq<char>>,
    pub title: Seq<char>,
    pub description: Option<Seq<char>>,
    pub status: Option<Seq<char>>,
    pub priority: Option<Seq<char>>,
    pub labels: Seq<Seq<char>>,
    pub source: Seq<char>,
    pub team: Option<Seq<char>>,
    pub url: Option<Seq<char>>,
}

impl View for WorkItem {
    type V = WorkItemView;

    open spec fn view(&self) -> WorkItemView {
        WorkItemView {
            id: self.id@,
            source_id: opt_view(self.source_id),
            title: self.title@,
            description: opt_view(self.description),
            status: opt_view(self.status),
            priority: opt_view(self.priority),
            labels: strings_view(self.labels@),
            source: self.source@,
            team: opt_view(self.team),
            url: opt_view(self.url),
        }
    }
}

/// A board or project of a tracker that items can be filtered by.
#[derive(Debug, Clone)]
pub struct BoardInfo {
    pub id: String,
    pub name: String,
    pub source: String,
}

/// Name of a tracker's numeric priority (1 is the most urgent).
pub open spec fn priority_name(p: Option<u8>) -> Option<Seq<char>> {
    match p {
        Some(1) => Some("Urgent"@),
        Some(2) => Some("High"@),
        Some(3) => Some("Medium"@),
        Some(4) => Some("Low"@),
        _ => None,
    }
}

pub fn map_priority(p: Option<u8>) -> (r: Option<String>)
    ensures
        opt_view(r) == priority_name(p),
{
    match p {
        Some(1) => Some(String::from_str("Urgent")),
        Some(2) => Some(String::from_str("High")),
        Some(3) => Some(String::from_str("Medium")),
        Some(4) => Some(String::from_str("Low")),
        _ => None,
    }
}

} // verus!
