use workflow::agent::{Agent, AgentName, AgentStatus};
use workflow::store::AgentStore;

fn consistent(store: &AgentStore) -> bool {
    store
        .get_all()
        .iter()
        .all(|a| (a.status == AgentStatus::Working) == a.pid.is_some())
}

#[test]
fn new_registry_has_one_idle_agent_per_slot() {
    let store = AgentStore::new();
    let all = store.get_all();
    assert_eq!(all.len(), 4);
    let names: Vec<AgentName> = all.iter().map(|a| a.name).collect();
    assert_eq!(names, vec![AgentName::Ember, AgentName::Flow, AgentName::Tempest, AgentName::Terra]);
    assert!(all.iter().all(|a| a.status == AgentStatus::Idle && a.retry_count == 0));
    assert_eq!(store.next_free_agent(), Some(AgentName::Ember));
}

#[test]
fn working_iff_pid_through_transitions() {
    let mut store = AgentStore::new();
    assert!(consistent(&store));
    store.mark_provisioning(AgentName::Flow, "ENG-1", "Title", "agent/flow/ENG-1-title", "/w/agent-flow");
    assert!(consistent(&store));
    store.mark_working(AgentName::Flow, 4242);
    assert!(consistent(&store));
    assert_eq!(store.get_agent(AgentName::Flow).unwrap().pid, Some(4242));
    store.mark_error(AgentName::Flow, "boom");
    assert!(consistent(&store));
    let a = store.get_agent(AgentName::Flow).unwrap();
    assert_eq!(a.status, AgentStatus::Error);
    assert_eq!(a.error.as_deref(), Some("boom"));
    assert_eq!(a.pid, None);
    store.mark_provisioning(AgentName::Flow, "ENG-1", "Title", "b", "w");
    assert_eq!(store.get_agent(AgentName::Flow).unwrap().error, None);
    store.mark_working(AgentName::Flow, 7);
    store.mark_done(AgentName::Flow);
    assert!(consistent(&store));
    assert_eq!(store.get_agent(AgentName::Flow).unwrap().status, AgentStatus::Done);
}

#[test]
fn next_free_agent_follows_pool_order() {
    let mut store = AgentStore::new();
    store.mark_provisioning(AgentName::Ember, "A", "a", "b", "w");
    assert_eq!(store.next_free_agent(), Some(AgentName::Flow));
    store.mark_provisioning(AgentName::Flow, "B", "b", "b", "w");
    store.mark_provisioning(AgentName::Terra, "C", "c", "b", "w");
    assert_eq!(store.next_free_agent(), Some(AgentName::Tempest));
    store.mark_provisioning(AgentName::Tempest, "D", "d", "b", "w");
    assert_eq!(store.next_free_agent(), None);
    store.release(AgentName::Flow);
    assert_eq!(store.next_free_agent(), Some(AgentName::Flow));
}

#[test]
fn increment_and_release() {
    let mut store = AgentStore::new();
    assert_eq!(store.increment_retry(AgentName::Terra), 1);
    assert_eq!(store.increment_retry(AgentName::Terra), 2);
    store.mark_provisioning(AgentName::Terra, "X", "x", "b", "w");
    assert_eq!(store.get_agent(AgentName::Terra).unwrap().retry_count, 2);
    store.release(AgentName::Terra);
    let a = store.get_agent(AgentName::Terra).unwrap();
    assert_eq!(a.retry_count, 0);
    assert_eq!(a.status, AgentStatus::Idle);
    assert_eq!(a.work_item_id, None);
    assert_eq!(a.branch, None);
    assert_eq!(a.started_at, None);
}

#[test]
fn reload_keeps_fields_and_marks_dead_pids() {
    let mut store = AgentStore::new();
    store.mark_provisioning(AgentName::Ember, "E-1", "one", "br1", "wt1");
    store.mark_working(AgentName::Ember, 100);
    store.mark_provisioning(AgentName::Flow, "E-2", "two", "br2", "wt2");
    store.mark_working(AgentName::Flow, 200);
    store.mark_error(AgentName::Tempest, "old failure");
    store.increment_retry(AgentName::Tempest);
    let records: Vec<Agent> = store.get_all().into_iter().cloned().collect();
    let reloaded = AgentStore::load(records, &vec![100]);
    let ember = reloaded.get_agent(AgentName::Ember).unwrap();
    assert_eq!(ember.status, AgentStatus::Working);
    assert_eq!(ember.pid, Some(100));
    assert_eq!(ember.branch.as_deref(), Some("br1"));
    let flow = reloaded.get_agent(AgentName::Flow).unwrap();
    assert_eq!(flow.status, AgentStatus::Error);
    assert_eq!(flow.pid, None);
    assert_eq!(flow.error.as_deref(), Some("Process exited unexpectedly"));
    assert_eq!(flow.work_item_id.as_deref(), Some("E-2"));
    assert_eq!(flow.worktree_path.as_deref(), Some("wt2"));
    let tempest = reloaded.get_agent(AgentName::Tempest).unwrap();
    assert_eq!(tempest.status, AgentStatus::Error);
    assert_eq!(tempest.retry_count, 1);
    assert_eq!(tempest.error.as_deref(), Some("old failure"));
    assert_eq!(reloaded.get_agent(AgentName::Terra).unwrap().status, AgentStatus::Idle);
}

#[test]
fn load_fills_missing_and_inconsistent_records() {
    let mut broken = Agent::new(AgentName::Flow);
    broken.status = AgentStatus::Working;
    broken.work_item_id = Some("Z".to_string());
    let mut kept = Agent::new(AgentName::Terra);
    kept.status = AgentStatus::Done;
    kept.work_item_id = Some("T-9".to_string());
    let store = AgentStore::load(vec![broken, kept], &vec![]);
    let flow = store.get_agent(AgentName::Flow).unwrap();
    assert_eq!(flow.status, AgentStatus::Idle);
    assert_eq!(flow.work_item_id, None);
    let terra = store.get_agent(AgentName::Terra).unwrap();
    assert_eq!(terra.status, AgentStatus::Done);
    assert_eq!(terra.work_item_id.as_deref(), Some("T-9"));
    assert_eq!(store.get_all().len(), 4);
}

#[test]
fn update_agent_replaces_one_record() {
    let mut store = AgentStore::new();
    let mut a = Agent::new(AgentName::Tempest);
    a.status = AgentStatus::Error;
    a.error = Some("e".to_string());
    assert!(a.is_consistent());
    store.update_agent(AgentName::Tempest, a);
    assert_eq!(store.get_agent(AgentName::Tempest).unwrap().status, AgentStatus::Error);
    assert_eq!(store.get_agent(AgentName::Ember).unwrap().status, AgentStatus::Idle);
}

#[test]
fn names_and_labels() {
    assert_eq!(AgentName::Ember.as_str(), "ember");
    assert_eq!(AgentName::Tempest.display_name(), "Tempest");
    assert_eq!(AgentName::Terra.emoji(), "\u{1F469}\u{200D}\u{1F33E}");
    assert_eq!(AgentStatus::Provisioning.as_str(), "provisioning");
    assert_eq!(AgentName::Terra.slot(), 3);
}
