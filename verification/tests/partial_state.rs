use openclaw_weil::memory::storage_key;
use openclaw_weil::store::{storage_id, Collection, KeyedStore};
use openclaw_weil::types::{AppletConfig, ConversationRole};
use openclaw_weil::OpenClawState;

fn s(text: &str) -> String {
    text.to_string()
}

fn config() -> AppletConfig {
    AppletConfig { system_prompt: s("p"), default_model: s("m"), max_history_turns: 1 }
}

/// A state in which two agents and two sessions exist.
fn whole() -> OpenClawState {
    let mut state = OpenClawState::new(None, config()).unwrap();
    state.register_agent(s("a"), s("0x1")).unwrap();
    state.register_agent(s("b"), s("0x2")).unwrap();
    state.append_message(s("k"), ConversationRole::User, s("hi"), 1).unwrap();
    state.append_message(s("l"), ConversationRole::User, s("ho"), 2).unwrap();
    state
}

/// The lists of `state`, with no entry loaded.
fn unloaded(state: &OpenClawState) -> OpenClawState {
    OpenClawState {
        config: state.config.clone(),
        sessions: KeyedStore::new(Collection::Sessions),
        session_keys: state.session_keys.clone(),
        cron_jobs: KeyedStore::new(Collection::CronJobs),
        cron_ids: state.cron_ids.clone(),
        user_memory: KeyedStore::new(Collection::UserMemory),
        task_history: KeyedStore::new(Collection::TaskHistory),
        agent_registry: KeyedStore::new(Collection::AgentRegistry),
        agent_names: state.agent_names.clone(),
    }
}

#[test]
fn a_change_needs_only_its_own_entry() {
    let mut all = whole();
    let mut part = unloaded(&all);
    part.sessions.insert(s("k"), all.get_transcript(s("k")).unwrap());
    all.append_message(s("k"), ConversationRole::Assistant, s("hello"), 3).unwrap();
    part.append_message(s("k"), ConversationRole::Assistant, s("hello"), 3).unwrap();
    assert_eq!(part.get_transcript(s("k")), all.get_transcript(s("k")));
    assert_eq!(part.session_keys, all.session_keys);
}

#[test]
fn a_removal_needs_only_its_own_entry() {
    let mut all = whole();
    let mut part = unloaded(&all);
    part.agent_registry.insert(s("a"), s("0x1"));
    assert_eq!(all.unregister_agent(s("a")), Ok(()));
    assert_eq!(part.unregister_agent(s("a")), Ok(()));
    assert_eq!(part.agent_names, all.agent_names);
    assert_eq!(part.agent_registry.get(&s("a")), None);
}

#[test]
fn a_list_needs_only_the_entries_it_names() {
    let all = whole();
    let mut part = unloaded(&all);
    part.agent_registry.insert(s("a"), s("0x1"));
    part.agent_registry.insert(s("b"), s("0x2"));
    assert_eq!(part.list_agents(), all.list_agents());
}

#[test]
fn memory_keys() {
    assert_eq!(storage_key(&s("0xaa"), &s("k")), "0xaa:k");
    assert_eq!(storage_key(&s(""), &s("")), ":");
}

#[test]
fn storage_identifiers() {
    assert_eq!(storage_id(Collection::Sessions), 10);
    assert_eq!(storage_id(Collection::CronJobs), 11);
    assert_eq!(storage_id(Collection::UserMemory), 12);
    assert_eq!(storage_id(Collection::TaskHistory), 13);
    assert_eq!(storage_id(Collection::AgentRegistry), 14);
}

fn identifiers(state: &OpenClawState) -> Vec<u8> {
    vec![
        state.sessions.storage_id(),
        state.cron_jobs.storage_id(),
        state.user_memory.storage_id(),
        state.task_history.storage_id(),
        state.agent_registry.storage_id(),
    ]
}

#[test]
fn collections_keep_their_identifiers() {
    let mut state = OpenClawState::new(None, config()).unwrap();
    assert_eq!(identifiers(&state), vec![10, 11, 12, 13, 14]);
    state.register_agent(s("a"), s("0x1")).unwrap();
    state.append_message(s("k"), ConversationRole::User, s("hi"), 1).unwrap();
    state.store_task_record(s("k"), s("t"), s("hi"), s("ho"), 2).unwrap();
    state.create_cron(s("n"), s("d"), s("0x"), 1, 3).unwrap();
    state.remember(s("k"), s("v"), &s("0xa")).unwrap();
    assert_eq!(identifiers(&state), vec![10, 11, 12, 13, 14]);
    state.unregister_agent(s("a")).unwrap();
    state.clear_session(s("k")).unwrap();
    state.delete_cron(s("n")).unwrap();
    state.forget(s("k"), &s("0xa")).unwrap();
    assert_eq!(identifiers(&state), vec![10, 11, 12, 13, 14]);
}
