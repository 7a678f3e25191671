use openclaw_weil::store::{Collection, KeyedStore};
use openclaw_weil::types::AppletConfig;
use openclaw_weil::OpenClawState;

fn config() -> AppletConfig {
    AppletConfig {
        system_prompt: "You help.".to_string(),
        default_model: "small".to_string(),
        max_history_turns: 3,
    }
}

fn fresh() -> OpenClawState {
    OpenClawState::new(None, config()).unwrap()
}

fn s(text: &str) -> String {
    text.to_string()
}

#[test]
fn new_applet_is_empty() {
    let state = fresh();
    let status = state.status(s("me")).unwrap();
    assert_eq!(status.contract_id, "me");
    assert_eq!(status.active_sessions, 0);
    assert_eq!(status.cron_jobs_count, 0);
    assert_eq!(status.registered_agents_count, 0);
    assert_eq!(status.default_model, "small");
    assert_eq!(state.prompts(), "You help.");
    assert_eq!(state.list_agents(), Ok(s("[]")));
    assert_eq!(state.list_crons(), Ok(vec![]));
    assert_eq!(state.list_sessions(), Ok(vec![]));
}

#[test]
fn a_given_prompt_takes_the_place_of_the_default() {
    let state = OpenClawState::new(Some(s("Be terse.")), config()).unwrap();
    assert_eq!(state.prompts(), "Be terse.");
    assert_eq!(state.config.default_model, "small");
    assert_eq!(state.config.max_history_turns, 3);
}

#[test]
fn configuration_is_replaced_and_records_stay() {
    let mut state = fresh();
    state.register_agent(s("a"), s("0x1")).unwrap();
    let other = AppletConfig {
        system_prompt: s("New."),
        default_model: s("large"),
        max_history_turns: 1,
    };
    assert_eq!(state.configure(other.clone()), Ok(()));
    assert_eq!(state.config, other);
    assert_eq!(state.prompts(), "New.");
    assert_eq!(state.list_agents(), Ok(s("[{\"name\":\"a\",\"contract_address\":\"0x1\"}]")));
}

#[test]
fn tool_schema_is_served_as_it_is() {
    assert_eq!(fresh().tools(&s("[{\"name\":\"web_fetch\"}]")), "[{\"name\":\"web_fetch\"}]");
}

#[test]
fn agents_are_listed_in_order_of_registration() {
    let mut state = fresh();
    assert_eq!(state.register_agent(s("b"), s("0x2")), Ok(()));
    assert_eq!(state.register_agent(s("a"), s("0x1")), Ok(()));
    assert_eq!(
        state.list_agents(),
        Ok(s("[{\"name\":\"b\",\"contract_address\":\"0x2\"},{\"name\":\"a\",\"contract_address\":\"0x1\"}]"))
    );
    let agents = state.registered_agents();
    assert_eq!(agents.len(), 2);
    assert_eq!(agents[1].name, "a");
    assert_eq!(agents[1].contract_address, "0x1");
}

#[test]
fn a_taken_name_is_refused() {
    let mut state = fresh();
    state.register_agent(s("a"), s("0x1")).unwrap();
    assert_eq!(
        state.register_agent(s("a"), s("0x2")),
        Err(s("Agent 'a' is already registered"))
    );
    assert_eq!(state.list_agents(), Ok(s("[{\"name\":\"a\",\"contract_address\":\"0x1\"}]")));
}

#[test]
fn an_unknown_name_is_refused() {
    let mut state = fresh();
    assert_eq!(state.unregister_agent(s("a")), Err(s("Agent 'a' is not registered")));
}

#[test]
fn unregistering_frees_the_name() {
    let mut state = fresh();
    state.register_agent(s("a"), s("0x1")).unwrap();
    state.register_agent(s("b"), s("0x2")).unwrap();
    assert_eq!(state.unregister_agent(s("a")), Ok(()));
    assert_eq!(state.agent_names, vec![s("b")]);
    assert_eq!(state.register_agent(s("a"), s("0x3")), Ok(()));
    assert_eq!(state.agent_names, vec![s("b"), s("a")]);
    assert_eq!(state.agent_registry.get(&s("a")), Some(&s("0x3")));
}

#[test]
fn agent_names_are_escaped_in_json() {
    let mut state = fresh();
    state.register_agent(s("q\"b\\n\nt\tr\rb\u{8}f\u{c}z\u{1}\u{1f}\u{7f}é"), s("/")).unwrap();
    let expected = "[{\"name\":\"q\\\"b\\\\n\\nt\\tr\\rb\\bf\\fz\\u0001\\u001f\u{7f}é\",\
                    \"contract_address\":\"/\"}]";
    assert_eq!(state.list_agents(), Ok(s(expected)));
}

#[test]
fn agent_list_is_json() {
    let mut state = fresh();
    state.register_agent(s("x \"y\" \u{2}"), s("a\\b")).unwrap();
    state.register_agent(s(""), s("é")).unwrap();
    let text = state.list_agents().unwrap();
    let value: serde_json::Value = serde_json::from_str(&text).unwrap();
    assert_eq!(value[0]["name"], "x \"y\" \u{2}");
    assert_eq!(value[0]["contract_address"], "a\\b");
    assert_eq!(value[1]["name"], "");
    assert_eq!(value[1]["contract_address"], "é");
    assert_eq!(value.as_array().unwrap().len(), 2);
}

#[test]
fn a_listed_name_without_address_is_passed_over() {
    let mut state = fresh();
    state.agent_names.push(s("ghost"));
    state.register_agent(s("a"), s("0x1")).unwrap();
    assert_eq!(state.list_agents(), Ok(s("[{\"name\":\"a\",\"contract_address\":\"0x1\"}]")));
}

#[test]
fn cron_jobs_come_and_go() {
    let mut state = fresh();
    assert_eq!(state.create_cron(s("n"), s("sweep"), s("0x9"), 60000, 5), Ok(()));
    assert_eq!(state.create_cron(s("m"), s("mop"), s("0x8"), 1, 6), Ok(()));
    assert_eq!(
        state.create_cron(s("n"), s("other"), s("0x7"), 2, 7),
        Err(s("Cron job 'n' already exists"))
    );
    let crons = state.list_crons().unwrap();
    assert_eq!(crons.len(), 2);
    assert_eq!(crons[0].id, "n");
    assert_eq!(crons[0].description, "sweep");
    assert_eq!(crons[0].mcp_contract_address, "0x9");
    assert_eq!(crons[0].every_ms, 60000);
    assert_eq!(crons[0].last_run_timestamp, None);
    assert_eq!(crons[0].created_at, 5);
    assert_eq!(crons[1].id, "m");
    assert_eq!(state.status(s("me")).unwrap().cron_jobs_count, 2);
    assert_eq!(state.delete_cron(s("n")), Ok(()));
    assert_eq!(state.delete_cron(s("n")), Err(s("Cron job 'n' not found")));
    assert_eq!(state.cron_ids, vec![s("m")]);
}

#[test]
fn touching_a_cron_job_notes_the_run() {
    let mut state = fresh();
    state.create_cron(s("n"), s("sweep"), s("0x9"), 60000, 5).unwrap();
    let mut expected = state.list_crons().unwrap();
    assert_eq!(state.touch_cron(s("n"), 11), Ok(()));
    assert_eq!(state.touch_cron(s("n"), 12), Ok(()));
    expected[0].last_run_timestamp = Some(12);
    assert_eq!(state.list_crons(), Ok(expected));
    assert_eq!(state.touch_cron(s("x"), 12), Err(s("Cron job 'x' not found")));
}

#[test]
fn running_a_cron_job_prepares_its_task() {
    let mut state = fresh();
    state.create_cron(s("n"), s("sweep"), s("0x9"), 60000, 5).unwrap();
    let call = state.run_cron(s("n"), None, Some(s("key")), s("0xcafe"), s("u1")).unwrap();
    assert_eq!(call.engagement.caller, "0xcafe");
    assert_eq!(call.engagement.model, "small");
    assert_eq!(call.engagement.model_key, Some(s("key")));
    assert_eq!(call.task.task_id, "u1");
    assert_eq!(call.task.description, "sweep");
    assert_eq!(call.task.mcp_contract_address, "0x9");
    assert_eq!(
        state.run_cron(s("x"), None, None, s("0xcafe"), s("u1")),
        Err(s("Cron job 'x' not found"))
    );
    assert_eq!(OpenClawState::run_cron_reply(Ok(s("swept"))), Ok(s("swept")));
    assert_eq!(
        OpenClawState::run_cron_reply(Err(s("dust"))),
        Err(s("Cron execution failed: dust"))
    );
}

#[test]
fn memory_is_recalled_and_forgotten() {
    let mut state = fresh();
    let me = s("0xaa");
    assert_eq!(state.recall(s("k"), &me), Ok(None));
    assert_eq!(state.remember(s("k"), s("v"), &me), Ok(()));
    assert_eq!(state.recall(s("k"), &me), Ok(Some(s("v"))));
    assert_eq!(state.recall_memory(s("k"), &me), Ok(Some(s("v"))));
    assert_eq!(state.remember(s("k"), s("w"), &me), Ok(()));
    assert_eq!(state.recall(s("k"), &me), Ok(Some(s("w"))));
    assert_eq!(state.user_memory.get(&s("0xaa:k")), Some(&s("w")));
    assert_eq!(state.forget(s("k"), &me), Ok(true));
    assert_eq!(state.forget(s("k"), &me), Ok(false));
    assert_eq!(state.recall(s("k"), &me), Ok(None));
}

#[test]
fn memory_is_the_callers_own() {
    let mut state = fresh();
    state.remember(s("k"), s("mine"), &s("0xaa")).unwrap();
    state.remember(s("k"), s("yours"), &s("0xbb")).unwrap();
    assert_eq!(state.recall(s("k"), &s("0xaa")), Ok(Some(s("mine"))));
    assert_eq!(state.forget(s("k"), &s("0xbb")), Ok(true));
    assert_eq!(state.recall(s("k"), &s("0xaa")), Ok(Some(s("mine"))));
}

#[test]
fn overlapping_addresses_share_memory() {
    let mut state = fresh();
    state.remember(s("b:k"), s("v"), &s("a")).unwrap();
    assert_eq!(state.recall(s("k"), &s("a:b")), Ok(Some(s("v"))));
}

#[test]
fn status_counts() {
    let mut state = fresh();
    state.register_agent(s("a"), s("0x1")).unwrap();
    state.register_agent(s("b"), s("0x2")).unwrap();
    state.create_cron(s("n"), s("sweep"), s("0x9"), 60000, 5).unwrap();
    let status = state.status(s("me")).unwrap();
    assert_eq!(status.registered_agents_count, 2);
    assert_eq!(status.cron_jobs_count, 1);
    assert_eq!(status.active_sessions, 0);
}

#[test]
fn store_replaces_and_removes() {
    let mut store: KeyedStore<String> = KeyedStore::new(Collection::UserMemory);
    assert_eq!(store.get(&s("a")), None);
    store.insert(s("a"), s("1"));
    store.insert(s("b"), s("2"));
    store.insert(s("a"), s("3"));
    assert_eq!(store.get(&s("a")), Some(&s("3")));
    assert_eq!(store.get(&s("b")), Some(&s("2")));
    store.remove(&s("a"));
    assert_eq!(store.get(&s("a")), None);
    assert_eq!(store.get(&s("b")), Some(&s("2")));
    store.remove(&s("a"));
    assert_eq!(store.get(&s("b")), Some(&s("2")));
}

#[test]
fn different_agents_have_different_texts() {
    let mut one = fresh();
    one.register_agent(s("a"), s("x\",\"y")).unwrap();
    let mut two = fresh();
    two.register_agent(s("a\",\"contract_address\":\"x"), s("y")).unwrap();
    assert_ne!(one.list_agents(), two.list_agents());
}

#[test]
fn removal_keeps_the_order_of_the_rest() {
    let mut state = fresh();
    for name in ["a", "b", "c"] {
        state.register_agent(s(name), s("0x")).unwrap();
        state.create_cron(s(name), s("d"), s("0x"), 1, 1).unwrap();
    }
    state.unregister_agent(s("b")).unwrap();
    state.delete_cron(s("b")).unwrap();
    let agents: Vec<String> = state.registered_agents().into_iter().map(|a| a.name).collect();
    assert_eq!(agents, vec![s("a"), s("c")]);
    let crons: Vec<String> = state.list_crons().unwrap().into_iter().map(|c| c.id).collect();
    assert_eq!(crons, vec![s("a"), s("c")]);
}

#[test]
fn removal_undoes_addition() {
    let mut state = fresh();
    state.register_agent(s("a"), s("0x1")).unwrap();
    state.create_cron(s("n"), s("d"), s("0x"), 1, 1).unwrap();
    let agents = state.list_agents();
    let crons = state.list_crons();
    state.register_agent(s("b"), s("0x2")).unwrap();
    state.create_cron(s("o"), s("d"), s("0x"), 1, 1).unwrap();
    state.unregister_agent(s("b")).unwrap();
    state.delete_cron(s("o")).unwrap();
    assert_eq!(state.list_agents(), agents);
    assert_eq!(state.list_crons(), crons);
}

#[test]
fn a_touched_cron_job_keeps_its_place() {
    let mut state = fresh();
    for id in ["a", "b", "c"] {
        state.create_cron(s(id), s("d"), s("0x"), 1, 1).unwrap();
    }
    let mut expected = state.list_crons().unwrap();
    state.touch_cron(s("b"), 9).unwrap();
    expected[1].last_run_timestamp = Some(9);
    assert_eq!(state.list_crons(), Ok(expected));
}
