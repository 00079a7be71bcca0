use vstd::prelude::*;

use crate::agent::{opt_view, AgentName};
use crate::clock::now_rfc3339;

verus! {

/// One entry of the activity log.
#[derive(Debug, Clone)]
pub struct AgentEvent {
    pub timestamp: String,
    pub agent: AgentName,
    pub event: String,
    pub work_item_id: Option<String>,
    pub work_item_title: Option<String>,
    pub message: Option<String>,
}

/// Whether an event passes an optional agent filter.
pub open spec fn passes(e: AgentEvent, agent: Option<AgentName>) -> bool {
    match agent {
        Some(a) => e.agent == a,
        None => true,
    }
}

/// The events that pass the filter, in log order.
pub open spec fn filtered(s: Seq<AgentEvent>, agent: Option<AgentName>) -> Seq<AgentEvent>
    decreases s.len(),
{
    if s.len() == 0 {
        Seq::empty()
    } else if passes(s.last(), agent) {
        filtered(s.drop_last(), agent).push(s.last())
    } else {
        filtered(s.drop_last(), agent)
    }
}

/// The last `limit` elements of `s`, or all of them when there is no limit or
/// fewer.
pub open spec fn most_recent(s: Seq<AgentEvent>, limit: Option<usize>) -> Seq<AgentEvent> {
    match limit {
        Some(n) => if s.len() > n {
            s.subrange(s.len() - n, s.len() as int)
        } else {
            s
        },
        None => s,
    }
}

/// Every event of `filtered` passes the filter, and comes from the input.
pub proof fn lemma_filtered_members(s: Seq<AgentEvent>, agent: Option<AgentName>)
    ensures
        filtered(s, agent).len() <= s.len(),
        forall|i: int|
            0 <= i < filtered(s, agent).len() ==> passes(#[trigger] filtered(s, agent)[i], agent)
                && s.contains(filtered(s, agent)[i]),
    decreases s.len(),
{
    if s.len() > 0 {
        lemma_filtered_members(s.drop_last(), agent);
        let f = filtered(s, agent);
        let g = filtered(s.drop_last(), agent);
        assert forall|i: int| 0 <= i < f.len() implies passes(#[trigger] f[i], agent) && s.contains(
            f[i],
        ) by {
            if i < g.len() {
                assert(f[i] == g[i]);
                let j = choose|j: int| 0 <= j < s.drop_last().len() && s.drop_last()[j] == g[i];
                assert(s[j] == g[i]);
            } else {
                assert(f[i] == s.last());
                assert(s[s.len() - 1] == s.last());
            }
        }
    }
}

/// Reading one agent's events under a limit of `n` gives at most `n` events,
/// all of that agent, and they are the most recent of that agent's events in
/// log order.
pub proof fn lemma_read_limited(s: Seq<AgentEvent>, agent: AgentName, n: usize)
    ensures
        most_recent(filtered(s, Some(agent)), Some(n)).len() <= n,
        forall|i: int|
            0 <= i < most_recent(filtered(s, Some(agent)), Some(n)).len() ==> (#[trigger] most_recent(
                filtered(s, Some(agent)),
                Some(n),
            )[i]).agent == agent,
        most_recent(filtered(s, Some(agent)), Some(n)) == filtered(s, Some(agent)).subrange(
            filtered(s, Some(agent)).len() - most_recent(filtered(s, Some(agent)), Some(n)).len(),
            filtered(s, Some(agent)).len() as int,
        ),
{
    let f = filtered(s, Some(agent));
    let r = most_recent(f, Some(n));
    lemma_filtered_members(s, Some(agent));
    if f.len() > n {
        assert forall|i: int| 0 <= i < r.len() implies (#[trigger] r[i]).agent == agent by {
            assert(r[i] == f[f.len() - n + i]);
            assert(passes(f[f.len() - n + i], Some(agent)));
        }
    } else {
        assert(f.subrange(0, f.len() as int) =~= f);
        assert forall|i: int| 0 <= i < r.len() implies (#[trigger] r[i]).agent == agent by {
            assert(passes(f[i], Some(agent)));
        }
    }
}

/// Keeps the events that pass the agent filter and, under a limit, only the
/// most recent of them, in log order.
pub fn select_events(events: Vec<AgentEvent>, agent: Option<AgentName>, limit: Option<usize>) -> (r:
    Vec<AgentEvent>)
    ensures
        r@ == most_recent(filtered(events@, agent), limit),
{
    let ghost orig = events@;
    let mut kept: Vec<AgentEvent> = Vec::new();
    for e in iter: events
        invariant
            iter.seq() == orig,
            kept@ == filtered(orig.subrange(0, iter.index() as int), agent),
    {
        let ghost k = iter.index();
        proof {
            assert(orig.subrange(0, k + 1).drop_last() =~= orig.subrange(0, k as int));
            assert(orig.subrange(0, k + 1).last() == e);
        }
        let keep = match agent {
            Some(a) => e.agent == a,
            None => true,
        };
        if keep {
            kept.push(e);
        }
    }
    assert(orig.subrange(0, orig.len() as int) =~= orig);
    match limit {
        Some(n) => {
            let len = kept.len();
            if len > n {
                kept.split_off(len - n)
            } else {
                kept
            }
        },
        None => kept,
    }
}

/// The log without the events of one agent, others kept in order.
pub fn remove_agent_events(events: Vec<AgentEvent>, agent: AgentName) -> (r: Vec<AgentEvent>)
    ensures
        r@ == filtered_out(events@, agent),
{
    let ghost orig = events@;
    let mut kept: Vec<AgentEvent> = Vec::new();
    for e in iter: events
        invariant
            iter.seq() == orig,
            kept@ == filtered_out(orig.subrange(0, iter.index() as int), agent),
    {
        let ghost k = iter.index();
        proof {
            assert(orig.subrange(0, k + 1).drop_last() =~= orig.subrange(0, k as int));
            assert(orig.subrange(0, k + 1).last() == e);
        }
        if e.agent != agent {
            kept.push(e);
        }
    }
    assert(orig.subrange(0, orig.len() as int) =~= orig);
    kept
}

/// The events of every agent but one, in log order.
pub open spec fn filtered_out(s: Seq<AgentEvent>, agent: AgentName) -> Seq<AgentEvent>
    decreases s.len(),
{
    if s.len() == 0 {
        Seq::empty()
    } else if s.last().agent != agent {
        filtered_out(s.drop_last(), agent).push(s.last())
    } else {
        filtered_out(s.drop_last(), agent)
    }
}

/// Once an agent's events are removed, selecting that agent's events gives
/// nothing.
pub proof fn lemma_cleared_agent_reads_empty(s: Seq<AgentEvent>, agent: AgentName)
    ensures
        filtered(filtered_out(s, agent), Some(agent)).len() == 0,
    decreases s.len(),
{
    if s.len() > 0 {
        lemma_cleared_agent_reads_empty(s.drop_last(), agent);
        let t = filtered_out(s.drop_last(), agent);
        if s.last().agent != agent {
            assert(filtered_out(s, agent).drop_last() =~= t);
        }
    }
}

/// A new event stamped with the current time.
pub fn new_event(
    agent: AgentName,
    event_type: &str,
    work_item_id: Option<&str>,
    work_item_title: Option<&str>,
    message: Option<&str>,
) -> (r: AgentEvent)
    ensures
        r.agent == agent,
        r.event@ == event_type@,
        opt_view(r.work_item_id) == opt_slice_view(work_item_id),
        opt_view(r.work_item_title) == opt_slice_view(work_item_title),
        opt_view(r.message) == opt_slice_view(message),
{
    AgentEvent {
        timestamp: now_rfc3339(),
        agent,
        event: event_type.to_owned(),
        work_item_id: owned(work_item_id),
        work_item_title: owned(work_item_title),
        message: owned(message),
    }
}

pub open spec fn opt_slice_view(o: Option<&str>) -> Option<Seq<char>> {
    match o {
        Some(s) => Some(s@),
        None => None,
    }
}

fn owned(o: Option<&str>) -> (r: Option<String>)
    ensures
        opt_view(r) == opt_slice_view(o),
{
    match o {
        Some(s) => Some(s.to_owned()),
        None => None,
    }
}

} // verus!
