use workflow::agent::{AgentName, AgentStatus};
use workflow::controller::{ClearOutcome, Controller, RetryOutcome, SelectOutcome, MAX_RETRIES};
use workflow::store::AgentStore;
use workflow::work_item::WorkItem;

fn item(id: &str, title: &str) -> WorkItem {
    WorkItem {
        id: id.to_string(),
        source_id: None,
        title: title.to_string(),
        description: None,
        status: None,
        priority: None,
        labels: vec![],
        source: "Linear".to_string(),
        team: None,
        url: None,
    }
}

const ROOT: &str = "/Users/pim/fm/workflow/main";

#[test]
fn successful_dispatch_runs_the_full_cycle() {
    let mut ctl = Controller::new(AgentStore::new());
    ctl.set_auto_mode(true);
    let backlog = vec![item("ENG-1", "Add login")];
    let plan = ctl.auto_dispatch_step(&backlog, ROOT).unwrap();
    assert_eq!(plan.agent, AgentName::Ember);
    assert_eq!(plan.item_index, 0);
    assert_eq!(plan.branch, "agent/ember/ENG-1-add-login");
    assert_eq!(plan.worktree_path, "/Users/pim/fm/workflow/agent-ember");
    assert!(plan.prompt.contains("- ID: ENG-1\n"));
    let a = ctl.store().get_agent(AgentName::Ember).unwrap();
    assert_eq!(a.status, AgentStatus::Provisioning);
    assert_eq!(a.branch.as_deref(), Some("agent/ember/ENG-1-add-login"));
    assert_eq!(a.worktree_path.as_deref(), Some("/Users/pim/fm/workflow/agent-ember"));
    assert!(a.started_at.is_some());
    ctl.finish_dispatch(AgentName::Ember, Ok(31337));
    let a = ctl.store().get_agent(AgentName::Ember).unwrap();
    assert_eq!(a.status, AgentStatus::Working);
    assert_eq!(a.pid, Some(31337));
    ctl.process_exited(AgentName::Ember, true);
    assert_eq!(ctl.store().get_agent(AgentName::Ember).unwrap().status, AgentStatus::Done);
    assert_eq!(ctl.release_done(), vec![AgentName::Ember]);
    let a = ctl.store().get_agent(AgentName::Ember).unwrap();
    assert_eq!(a.status, AgentStatus::Idle);
    assert_eq!(a.retry_count, 0);
    assert_eq!(a.work_item_id, None);
    assert_eq!(a.work_item_title, None);
    assert_eq!(a.branch, None);
    assert_eq!(a.worktree_path, None);
}

#[test]
fn repeated_failures_retry_three_times_then_give_up() {
    let mut ctl = Controller::new(AgentStore::new());
    let backlog = vec![item("ENG-7", "Flaky")];
    ctl.auto_dispatch_step(&backlog, ROOT).unwrap();
    ctl.finish_dispatch(AgentName::Ember, Ok(1));
    let mut max_retries_events = 0;
    for expected in 1..=4u32 {
        ctl.process_exited(AgentName::Ember, false);
        assert_eq!(ctl.errored_agents(), vec![AgentName::Ember]);
        match ctl.retry_agent(AgentName::Ember, &backlog, ROOT) {
            RetryOutcome::Redispatch { count, plan } => {
                assert!(expected <= MAX_RETRIES);
                assert_eq!(count, expected);
                assert_eq!(plan.item_index, 0);
                let a = ctl.store().get_agent(AgentName::Ember).unwrap();
                assert_eq!(a.status, AgentStatus::Provisioning);
                assert_eq!(a.retry_count, expected);
                ctl.finish_dispatch(AgentName::Ember, Ok(expected + 10));
            }
            RetryOutcome::GaveUp { count } => {
                assert_eq!(expected, 4);
                assert_eq!(count, 4);
                max_retries_events += 1;
            }
            _ => panic!("unexpected outcome"),
        }
    }
    assert_eq!(max_retries_events, 1);
    let a = ctl.store().get_agent(AgentName::Ember).unwrap();
    assert_eq!(a.status, AgentStatus::Idle);
    assert_eq!(a.retry_count, 0);
    assert!(ctl.auto_dispatch_step(&backlog, ROOT).is_none());
}

#[test]
fn retry_releases_when_item_left_backlog() {
    let mut ctl = Controller::new(AgentStore::new());
    let backlog = vec![item("A", "a")];
    ctl.auto_dispatch_step(&backlog, ROOT).unwrap();
    ctl.finish_dispatch(AgentName::Ember, Err("git fetch failed".to_string()));
    let a = ctl.store().get_agent(AgentName::Ember).unwrap();
    assert_eq!(a.status, AgentStatus::Error);
    assert_eq!(a.error.as_deref(), Some("git fetch failed"));
    match ctl.retry_agent(AgentName::Ember, &vec![item("B", "b")], ROOT) {
        RetryOutcome::ItemGone { count } => assert_eq!(count, 1),
        _ => panic!("expected the agent to be released"),
    }
    assert_eq!(ctl.store().get_agent(AgentName::Ember).unwrap().status, AgentStatus::Idle);
}

#[test]
fn retry_without_item_only_counts() {
    let mut store = AgentStore::new();
    store.mark_error(AgentName::Flow, "stale");
    let mut ctl = Controller::new(store);
    match ctl.retry_agent(AgentName::Flow, &vec![], ROOT) {
        RetryOutcome::NoItem { count } => assert_eq!(count, 1),
        _ => panic!("expected only the counter to move"),
    }
    let a = ctl.store().get_agent(AgentName::Flow).unwrap();
    assert_eq!(a.status, AgentStatus::Error);
    assert_eq!(a.retry_count, 1);
}

#[test]
fn auto_dispatch_never_hands_out_an_id_twice() {
    let mut ctl = Controller::new(AgentStore::new());
    let backlog = vec![item("X-1", "one"), item("X-2", "two"), item("X-1", "dup"), item("X-3", "three")];
    let mut ids = Vec::new();
    let mut agents = Vec::new();
    while let Some(plan) = ctl.auto_dispatch_step(&backlog, ROOT) {
        ids.push(backlog[plan.item_index].id.clone());
        agents.push(plan.agent);
        ctl.finish_dispatch(plan.agent, Ok(1000 + plan.item_index as u32));
    }
    assert_eq!(ids, vec!["X-1", "X-2", "X-3"]);
    assert_eq!(agents, vec![AgentName::Ember, AgentName::Flow, AgentName::Tempest]);
    assert_eq!(ctl.store().next_free_agent(), Some(AgentName::Terra));
}

#[test]
fn auto_dispatch_fills_every_free_agent() {
    let mut ctl = Controller::new(AgentStore::new());
    let backlog: Vec<WorkItem> = (0..6).map(|i| item(&format!("I-{i}"), "t")).collect();
    let mut n = 0;
    while let Some(plan) = ctl.auto_dispatch_step(&backlog, ROOT) {
        ctl.finish_dispatch(plan.agent, Err("spawn failed".to_string()));
        n += 1;
    }
    assert_eq!(n, 4);
    assert_eq!(ctl.store().next_free_agent(), None);
}

#[test]
fn dispatch_selected_and_busy() {
    let mut ctl = Controller::new(AgentStore::new());
    let backlog = vec![item("S-1", "one"), item("S-2", "two")];
    assert!(matches!(ctl.dispatch_selected(&backlog, 5, ROOT), SelectOutcome::NoItem));
    for _ in 0..4 {
        match ctl.dispatch_selected(&backlog, 1, ROOT) {
            SelectOutcome::Dispatched(plan) => assert_eq!(plan.item_index, 1),
            _ => panic!("expected a dispatch"),
        }
    }
    assert!(matches!(ctl.dispatch_selected(&backlog, 0, ROOT), SelectOutcome::AllBusy));
    let plan = {
        ctl.clear_agent(AgentName::Flow);
        ctl.auto_dispatch_step(&backlog, ROOT).unwrap()
    };
    assert_eq!(plan.agent, AgentName::Flow);
    assert_eq!(plan.item_index, 0);
}

#[test]
fn clear_agent_frees_its_item() {
    let mut ctl = Controller::new(AgentStore::new());
    let backlog = vec![item("C-1", "one")];
    ctl.auto_dispatch_step(&backlog, ROOT).unwrap();
    ctl.finish_dispatch(AgentName::Ember, Ok(555));
    assert!(ctl.auto_dispatch_step(&backlog, ROOT).is_none());
    match ctl.clear_agent(AgentName::Ember) {
        ClearOutcome::Cleared { pid, work_item_id, work_item_title } => {
            assert_eq!(pid, Some(555));
            assert_eq!(work_item_id.as_deref(), Some("C-1"));
            assert_eq!(work_item_title.as_deref(), Some("one"));
        }
        ClearOutcome::AlreadyIdle => panic!("agent was busy"),
    }
    assert!(matches!(ctl.clear_agent(AgentName::Ember), ClearOutcome::AlreadyIdle));
    let plan = ctl.auto_dispatch_step(&backlog, ROOT).unwrap();
    assert_eq!(plan.agent, AgentName::Ember);
}

#[test]
fn reload_through_controller_marks_dead_process() {
    let mut ctl = Controller::new(AgentStore::new());
    let backlog = vec![item("R-1", "r")];
    ctl.auto_dispatch_step(&backlog, ROOT).unwrap();
    ctl.finish_dispatch(AgentName::Ember, Ok(99));
    let records = ctl.store().get_all().into_iter().cloned().collect();
    ctl.reload(records, &vec![]);
    let a = ctl.store().get_agent(AgentName::Ember).unwrap();
    assert_eq!(a.status, AgentStatus::Error);
    assert_eq!(a.pid, None);
    assert_eq!(a.error.as_deref(), Some("Process exited unexpectedly"));
    assert!(!ctl.auto_mode());
}

#[test]
fn assigned_agent_finds_active_holder() {
    let mut ctl = Controller::new(AgentStore::new());
    let backlog = vec![item("A-1", "a"), item("A-2", "b")];
    ctl.auto_dispatch_step(&backlog, ROOT).unwrap();
    ctl.auto_dispatch_step(&backlog, ROOT).unwrap();
    assert_eq!(ctl.assigned_agent("A-1"), Some(AgentName::Ember));
    assert_eq!(ctl.assigned_agent("A-2"), Some(AgentName::Flow));
    assert_eq!(ctl.assigned_agent("A-3"), None);
    ctl.finish_dispatch(AgentName::Flow, Err("x".to_string()));
    assert_eq!(ctl.assigned_agent("A-2"), None);
}
