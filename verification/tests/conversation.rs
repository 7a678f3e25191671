use openclaw_weil::build_task_description;
use openclaw_weil::types::{AppletConfig, ConversationMessage, ConversationRole};
use openclaw_weil::OpenClawState;

fn config(max_history_turns: u32) -> AppletConfig {
    AppletConfig {
        system_prompt: "You help.".to_string(),
        default_model: "small".to_string(),
        max_history_turns,
    }
}

fn fresh() -> OpenClawState {
    OpenClawState::new(None, config(2)).unwrap()
}

fn said(role: ConversationRole, content: &str, timestamp: u64) -> ConversationMessage {
    ConversationMessage { role, content: content.to_string(), timestamp }
}

fn s(text: &str) -> String {
    text.to_string()
}

#[test]
fn first_message_stands_alone() {
    assert_eq!(build_task_description("hello", &[], 5), "hello");
}

#[test]
fn description_quotes_the_history() {
    let history = [
        said(ConversationRole::System, "be brief", 1),
        said(ConversationRole::User, "hi", 2),
        said(ConversationRole::Assistant, "hello", 3),
    ];
    assert_eq!(
        build_task_description("bye", &history, 10),
        "Previous conversation:\nSystem: be brief\nUser: hi\nAssistant: hello\n\nCurrent message: bye"
    );
}

#[test]
fn description_keeps_two_messages_per_turn() {
    let history = [
        said(ConversationRole::User, "one", 1),
        said(ConversationRole::Assistant, "two", 2),
        said(ConversationRole::User, "three", 3),
        said(ConversationRole::Assistant, "four", 4),
    ];
    assert_eq!(
        build_task_description("five", &history, 1),
        "Previous conversation:\nUser: three\nAssistant: four\n\nCurrent message: five"
    );
    assert_eq!(
        build_task_description("five", &history[1..], 1),
        "Previous conversation:\nUser: three\nAssistant: four\n\nCurrent message: five"
    );
}

#[test]
fn no_turns_keep_the_heading() {
    let history = [said(ConversationRole::User, "one", 1)];
    assert_eq!(
        build_task_description("two", &history, 0),
        "Previous conversation:\n\nCurrent message: two"
    );
}

#[test]
fn the_largest_turn_limit_keeps_everything() {
    let history = [said(ConversationRole::User, "one", 1)];
    assert_eq!(
        build_task_description("two", &history, u32::MAX),
        "Previous conversation:\nUser: one\n\nCurrent message: two"
    );
}

#[test]
fn transcript_reads_back_what_was_appended() {
    let mut state = fresh();
    assert_eq!(state.get_transcript(s("a")), Ok(vec![]));
    assert_eq!(state.append_message(s("a"), ConversationRole::User, s("hi"), 7), Ok(()));
    assert_eq!(state.append_message(s("a"), ConversationRole::Assistant, s("yo"), 8), Ok(()));
    assert_eq!(state.append_message(s("b"), ConversationRole::User, s("other"), 9), Ok(()));
    assert_eq!(
        state.get_transcript(s("a")),
        Ok(vec![said(ConversationRole::User, "hi", 7), said(ConversationRole::Assistant, "yo", 8)])
    );
    assert_eq!(state.get_transcript(s("b")), Ok(vec![said(ConversationRole::User, "other", 9)]));
    assert_eq!(state.list_sessions(), Ok(vec![s("a"), s("b")]));
}

#[test]
fn session_order_is_that_of_first_messages() {
    let mut state = fresh();
    for key in ["z", "a", "z", "m", "a"] {
        state.append_message(s(key), ConversationRole::User, s("x"), 1).unwrap();
    }
    assert_eq!(state.list_sessions(), Ok(vec![s("z"), s("a"), s("m")]));
}

#[test]
fn a_turn_is_kept() {
    let mut state = fresh();
    state.append_message(s("k"), ConversationRole::User, s("q"), 1).unwrap();
    state.append_message(s("k"), ConversationRole::Assistant, s("r"), 2).unwrap();
    assert_eq!(state.store_task_record(s("k"), s("t1"), s("q"), s("r"), 3), Ok(()));
    let log = state.get_task_history(s("k")).unwrap();
    assert_eq!(log.len(), 1);
    assert_eq!(log[0].task_id, "t1");
    assert_eq!(log[0].session_key, "k");
    assert_eq!(log[0].description, "q");
    assert_eq!(log[0].response, "r");
    assert_eq!(log[0].timestamp, 3);
    assert_eq!(state.get_transcript(s("k")).unwrap().len(), 2);
}

#[test]
fn a_record_alone_lists_no_session() {
    let mut state = fresh();
    state.store_task_record(s("k"), s("t1"), s("q"), s("r"), 3).unwrap();
    assert_eq!(state.list_sessions(), Ok(vec![]));
    assert_eq!(state.get_task_history(s("k")).unwrap().len(), 1);
    assert_eq!(state.get_task_history(s("l")), Ok(vec![]));
}

#[test]
fn cleared_session_is_gone() {
    let mut state = fresh();
    for key in ["a", "b", "c"] {
        state.append_message(s(key), ConversationRole::User, s("x"), 1).unwrap();
        state.store_task_record(s(key), s("t"), s("x"), s("y"), 2).unwrap();
    }
    assert_eq!(state.clear_session(s("b")), Ok(()));
    assert_eq!(state.list_sessions(), Ok(vec![s("a"), s("c")]));
    assert_eq!(state.get_transcript(s("b")), Ok(vec![]));
    assert_eq!(state.get_task_history(s("b")), Ok(vec![]));
    assert_eq!(state.get_transcript(s("c")).unwrap().len(), 1);
    assert_eq!(state.get_task_history(s("a")).unwrap().len(), 1);
    assert_eq!(state.clear_session(s("nowhere")), Ok(()));
    assert_eq!(state.list_sessions(), Ok(vec![s("a"), s("c")]));
}

#[test]
fn message_call_carries_context_and_defaults() {
    let mut state = fresh();
    state.append_message(s("k"), ConversationRole::User, s("q"), 1).unwrap();
    state.append_message(s("k"), ConversationRole::Assistant, s("r"), 2).unwrap();
    let call = state.send_message(
        s("k"),
        s("more?"),
        None,
        None,
        None,
        s("0xcafe"),
        s("id-1"),
        s("self-address"),
    );
    assert_eq!(call.engagement.caller, "0xcafe");
    assert_eq!(call.engagement.model, "small");
    assert_eq!(call.engagement.model_key, None);
    assert_eq!(call.task.task_id, "id-1");
    assert_eq!(call.task.mcp_contract_address, "self-address");
    assert_eq!(
        call.task.description,
        "Previous conversation:\nUser: q\nAssistant: r\n\nCurrent message: more?"
    );
}

#[test]
fn message_call_takes_what_is_named() {
    let state = fresh();
    let call = state.send_message(
        s("k"),
        s("hi"),
        Some(s("tools")),
        Some(s("large")),
        Some(s("key")),
        s("0xcafe"),
        s("id-1"),
        s("self-address"),
    );
    assert_eq!(call.engagement.model, "large");
    assert_eq!(call.engagement.model_key, Some(s("key")));
    assert_eq!(call.task.mcp_contract_address, "tools");
    assert_eq!(call.task.description, "hi");
}

#[test]
fn message_replies() {
    let call = fresh().send_message(
        s("k"),
        s("hi"),
        None,
        Some(s("m")),
        None,
        s("0xcafe"),
        s("id"),
        s("self-address"),
    );
    let response = OpenClawState::send_message_reply(call.clone(), s("k"), Ok(s("fine"))).unwrap();
    assert_eq!(response.reply, "fine");
    assert_eq!(response.task_id, "id");
    assert_eq!(response.session_key, "k");
    assert_eq!(response.model_used, "m");
    assert_eq!(
        OpenClawState::send_message_reply(call, s("k"), Err(s("no model"))),
        Err(s("Agent execution failed: no model"))
    );
}

#[test]
fn the_next_message_carries_the_turn() {
    let mut state = OpenClawState::new(None, config(1)).unwrap();
    for (role, text) in [
        (ConversationRole::User, "old"),
        (ConversationRole::Assistant, "older"),
        (ConversationRole::User, "hi"),
        (ConversationRole::Assistant, "hello"),
    ] {
        state.append_message(s("k"), role, s(text), 1).unwrap();
    }
    state.store_task_record(s("k"), s("t"), s("hi"), s("hello"), 2).unwrap();
    let call =
        state.send_message(s("k"), s("bye"), None, None, None, s("0xa"), s("u"), s("0xself"));
    assert_eq!(
        call.task.description,
        "Previous conversation:\nUser: hi\nAssistant: hello\n\nCurrent message: bye"
    );
}

#[test]
fn clearing_restores_and_repeats() {
    let mut state = fresh();
    state.append_message(s("k"), ConversationRole::User, s("hi"), 1).unwrap();
    state.append_message(s("l"), ConversationRole::User, s("ho"), 2).unwrap();
    for _ in 0..2 {
        assert_eq!(state.clear_session(s("l")), Ok(()));
        assert_eq!(state.list_sessions(), Ok(vec![s("k")]));
        assert_eq!(state.get_transcript(s("l")), Ok(vec![]));
        assert_eq!(
            state.get_transcript(s("k")),
            Ok(vec![said(ConversationRole::User, "hi", 1)])
        );
    }
}
