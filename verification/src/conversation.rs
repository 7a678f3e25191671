//! Conversations: transcripts, task logs, and the prompt that carries a conversation on.

use crate::changes::Change;
use crate::names;
use crate::state::{OpenClawState, StateModel};
use crate::text;
use crate::types::{
    AgentCall, AgentResponse, AgentTask, AgentTaskModel, ConversationMessage, ConversationRole,
    MessageModel, TaskRecord, TaskRecordModel, Timestamp,
};
use vstd::prelude::*;

verus! {

// ---------------------------------------------------------------------------
// The task description
// ---------------------------------------------------------------------------

/// How a speaker is named in a prompt.
pub open spec fn role_name(role: ConversationRole) -> Seq<char> {
    match role {
        ConversationRole::User => "User"@,
        ConversationRole::Assistant => "Assistant"@,
        ConversationRole::System => "System"@,
    }
}

/// One message as a line of a prompt.
pub open spec fn message_line(message: MessageModel) -> Seq<char> {
    role_name(message.role) + ": "@ + message.content + "\n"@
}

/// Messages as consecutive lines of a prompt.
pub open spec fn message_lines(messages: Seq<MessageModel>) -> Seq<char>
    decreases messages.len(),
{
    if messages.len() == 0 {
        Seq::empty()
    } else {
        message_lines(messages.drop_last()) + message_line(messages.last())
    }
}

/// The last `count` messages, or all where there are no more.
pub open spec fn last_messages(history: Seq<MessageModel>, count: nat) -> Seq<MessageModel> {
    if history.len() <= count {
        history
    } else {
        history.skip(history.len() - count)
    }
}

/// What an agent is asked: the message alone where nothing was said before, else the last
/// `max_turns` turns, of two messages each, and then the message.
pub open spec fn task_description(
    message: Seq<char>,
    history: Seq<MessageModel>,
    max_turns: nat,
) -> Seq<char> {
    if history.len() == 0 {
        message
    } else {
        "Previous conversation:\n"@ + message_lines(last_messages(history, 2 * max_turns)) + "\n"@
            + "Current message: "@ + message
    }
}

fn role_text(role: ConversationRole) -> (r: &'static str)
    ensures
        r@ == role_name(role),
{
    match role {
        ConversationRole::User => "User",
        ConversationRole::Assistant => "Assistant",
        ConversationRole::System => "System",
    }
}

/// Prepends the recent conversation to the current message, so that the model keeps the context
/// from turn to turn.
pub fn build_task_description(
    current_message: &str,
    history: &[ConversationMessage],
    max_turns: u32,
) -> (r: String)
    ensures
        r@ == task_description(current_message@, history.deep_view(), max_turns as nat),
        history@.len() == 0 ==> r@ == current_message@,
        history@.len() > 0 ==> r@ == "Previous conversation:\n"@ + message_lines(
            history.deep_view().skip(
                if history@.len() <= 2 * max_turns {
                    0
                } else {
                    history@.len() - 2 * max_turns
                },
            ),
        ) + "\n"@ + "Current message: "@ + current_message@,
{
    let len = history.len();
    if len == 0 {
        return current_message.to_string();
    }
    let kept: u64 = max_turns as u64 * 2;
    let start: usize = if len as u64 <= kept {
        0
    } else {
        len - kept as usize
    };
    let ghost all = history.deep_view();
    let ghost recent = last_messages(all, 2 * max_turns as nat);
    assert(recent =~= all.skip(start as int));

    let mut ctx = "Previous conversation:\n".to_string();
    let ghost head = ctx@;
    let mut i = start;
    assert(recent.take(0).len() == 0);
    assert(ctx@ =~= head + message_lines(recent.take(0)));
    while i < len
        invariant
            start <= i <= len,
            len == history.len(),
            all == history.deep_view(),
            recent == all.skip(start as int),
            ctx@ == head + message_lines(recent.take(i - start)),
        decreases len - i,
    {
        let ghost before = ctx@;
        ctx.append(role_text(history[i].role));
        ctx.append(": ");
        ctx.append(history[i].content.as_str());
        ctx.append("\n");
        proof {
            let m = history[i as int].deep_view();
            let next = recent.take(i - start + 1);
            assert(recent[i - start] == m);
            assert(next.last() == m);
            assert(next.drop_last() =~= recent.take(i - start));
            assert(ctx@ =~= before + message_line(m));
            assert(ctx@ =~= head + message_lines(next));
        }
        i += 1;
    }
    assert(recent.take(len - start) =~= recent);
    ctx.append("\n");
    ctx.append("Current message: ");
    ctx.append(current_message);
    ctx
}

// ---------------------------------------------------------------------------
// Transcripts and task logs
// ---------------------------------------------------------------------------

impl StateModel {
    /// The messages of a session, oldest first; none where there is no such session.
    pub open spec fn transcript(self, session_key: Seq<char>) -> Seq<MessageModel> {
        if self.sessions.contains_key(session_key) {
            self.sessions[session_key]
        } else {
            Seq::empty()
        }
    }

    /// The task log of a session, oldest first; empty where nothing was logged.
    pub open spec fn task_log(self, session_key: Seq<char>) -> Seq<TaskRecordModel> {
        if self.task_history.contains_key(session_key) {
            self.task_history[session_key]
        } else {
            Seq::empty()
        }
    }

    /// The state in which `message` ends the transcript of `session_key`; a session not yet
    /// listed is listed last.
    pub open spec fn with_message(self, session_key: Seq<char>, message: MessageModel) -> StateModel {
        StateModel {
            sessions: self.sessions.insert(
                session_key,
                self.transcript(session_key).push(message),
            ),
            session_keys: if self.session_keys.contains(session_key) {
                self.session_keys
            } else {
                self.session_keys.push(session_key)
            },
            ..self
        }
    }

    /// The state in which `record` ends the task log of its session.
    pub open spec fn with_task_record(self, record: TaskRecordModel) -> StateModel {
        StateModel {
            task_history: self.task_history.insert(
                record.session_key,
                self.task_log(record.session_key).push(record),
            ),
            ..self
        }
    }

    /// The state without anything of `session_key`.
    pub open spec fn without_session(self, session_key: Seq<char>) -> StateModel {
        StateModel {
            sessions: self.sessions.remove(session_key),
            session_keys: names::without(self.session_keys, session_key),
            task_history: self.task_history.remove(session_key),
            ..self
        }
    }

    /// The task that asks an agent for the reply to `message` in a session.
    pub open spec fn message_task(
        self,
        session_key: Seq<char>,
        message: Seq<char>,
        task_id: Seq<char>,
        mcp_contract_address: Seq<char>,
    ) -> AgentTaskModel {
        AgentTaskModel {
            task_id,
            description: task_description(
                message,
                self.transcript(session_key),
                self.config.max_history_turns as nat,
            ),
            mcp_contract_address,
        }
    }
}

impl OpenClawState {
    /// Prepares the agent call that answers `message`: it carries the recent conversation of the
    /// session, and uses the tools of the contract named, or else of this one.
    pub fn send_message(
        &self,
        session_key: String,
        message: String,
        mcp_contract_address: Option<String>,
        model: Option<String>,
        model_key: Option<String>,
        caller: String,
        task_id: String,
        contract_id: String,
    ) -> (r: AgentCall)
        ensures
            r.engagement.deep_view() == self@.engagement(
                caller@,
                model.deep_view(),
                model_key.deep_view(),
            ),
            r.task.deep_view() == self@.message_task(
                session_key@,
                message@,
                task_id@,
                match mcp_contract_address {
                    Some(address) => address@,
                    None => contract_id@,
                },
            ),
            r.engagement.caller == caller,
            match model {
                Some(name) => r.engagement.model == name,
                None => r.engagement.model@ == self.config.default_model@,
            },
            r.engagement.model_key == model_key,
            r.task.task_id == task_id,
            r.task.mcp_contract_address == match mcp_contract_address {
                Some(address) => address,
                None => contract_id,
            },
            r.task.description@ == task_description(
                message@,
                if self.sessions@.contains_key(session_key@) {
                    self.sessions@[session_key@]
                } else {
                    Seq::empty()
                },
                self.config.max_history_turns as nat,
            ),
    {
        let mcp_contract_address = match mcp_contract_address {
            Some(address) => address,
            None => contract_id,
        };
        let history = self.transcript_of(&session_key);
        let description = build_task_description(
            message.as_str(),
            history.as_slice(),
            self.config.max_history_turns,
        );
        AgentCall {
            engagement: self.engage(caller, model, model_key),
            task: AgentTask { task_id, description, mcp_contract_address },
        }
    }

    /// The response to a message, from how the agent call prepared for it went.
    pub fn send_message_reply(
        call: AgentCall,
        session_key: String,
        outcome: Result<String, String>,
    ) -> (r: Result<AgentResponse, String>)
        ensures
            match outcome {
                Ok(reply) => r == Ok::<AgentResponse, String>(
                    AgentResponse {
                        reply,
                        task_id: call.task.task_id,
                        session_key,
                        model_used: call.engagement.model,
                    },
                ),
                Err(e) => r matches Err(message) && message@ == "Agent execution failed: "@ + e@,
            },
    {
        match outcome {
            Ok(reply) => Ok(
                AgentResponse {
                    reply,
                    task_id: call.task.task_id,
                    session_key,
                    model_used: call.engagement.model,
                },
            ),
            Err(e) => Err(text::concat2("Agent execution failed: ", e.as_str())),
        }
    }

    fn transcript_of(&self, session_key: &String) -> (r: Vec<ConversationMessage>)
        ensures
            r.deep_view() == self@.transcript(session_key@),
    {
        let r = match self.sessions.get(session_key) {
            Some(messages) => {
                let copy = messages.clone();
                assert(copy.deep_view() =~= messages.deep_view());
                copy
            },
            None => Vec::new(),
        };
        assert(r.deep_view() =~= self@.transcript(session_key@));
        r
    }

    fn task_log_of(&self, session_key: &String) -> (r: Vec<TaskRecord>)
        ensures
            r.deep_view() == self@.task_log(session_key@),
    {
        let r = match self.task_history.get(session_key) {
            Some(records) => {
                let copy = records.clone();
                assert(copy.deep_view() =~= records.deep_view());
                copy
            },
            None => Vec::new(),
        };
        assert(r.deep_view() =~= self@.task_log(session_key@));
        r
    }

    /// Appends one message, stamped `timestamp`, to the transcript of a session.
    pub fn append_message(
        &mut self,
        session_key: String,
        role: ConversationRole,
        content: String,
        timestamp: Timestamp,
    ) -> (r: Result<(), String>)
        ensures
            r is Ok,
            final(self)@ == old(self)@.with_message(
                session_key@,
                MessageModel { role, content: content@, timestamp },
            ),
            final(self)@ == (StateModel {
                sessions: old(self)@.sessions.insert(
                    session_key@,
                    (if old(self)@.sessions.contains_key(session_key@) {
                        old(self)@.sessions[session_key@]
                    } else {
                        Seq::empty()
                    }).push(MessageModel { role, content: content@, timestamp }),
                ),
                session_keys: if old(self)@.session_keys.contains(session_key@) {
                    old(self)@.session_keys
                } else {
                    old(self)@.session_keys.push(session_key@)
                },
                ..old(self)@
            }),
            final(self)@ == old(self)@.changed(
                Change::AppendMessage {
                    session_key: session_key@,
                    message: MessageModel { role, content: content@, timestamp },
                },
            ),
            old(self)@.consistent() ==> final(self)@.consistent(),
    {
        let message = ConversationMessage { role, content, timestamp };
        let ghost model = message.deep_view();
        let mut transcript = self.transcript_of(&session_key);
        let ghost before = transcript.deep_view();
        transcript.push(message);
        assert(transcript.deep_view() =~= before.push(model));
        self.sessions.insert(session_key.clone(), transcript);
        if !names::lists(&self.session_keys, &session_key) {
            let ghost keys = self.session_keys.deep_view();
            self.session_keys.push(session_key);
            assert(self.session_keys.deep_view() =~= keys.push(session_key@));
        }
        assert(self@ =~= old(self)@.with_message(session_key@, model));
        proof {
            names::push_new_name(old(self)@.session_keys, session_key@);
        }
        Ok(())
    }

    /// Logs the outcome of an agent call under its session.
    pub fn store_task_record(
        &mut self,
        session_key: String,
        task_id: String,
        description: String,
        response: String,
        timestamp: Timestamp,
    ) -> (r: Result<(), String>)
        ensures
            r is Ok,
            final(self)@ == old(self)@.with_task_record(
                TaskRecordModel {
                    task_id: task_id@,
                    session_key: session_key@,
                    description: description@,
                    response: response@,
                    timestamp,
                },
            ),
            final(self)@ == (StateModel {
                task_history: old(self)@.task_history.insert(
                    session_key@,
                    (if old(self)@.task_history.contains_key(session_key@) {
                        old(self)@.task_history[session_key@]
                    } else {
                        Seq::empty()
                    }).push(
                        TaskRecordModel {
                            task_id: task_id@,
                            session_key: session_key@,
                            description: description@,
                            response: response@,
                            timestamp,
                        },
                    ),
                ),
                ..old(self)@
            }),
            final(self)@ == old(self)@.changed(
                Change::StoreTaskRecord {
                    record: TaskRecordModel {
                        task_id: task_id@,
                        session_key: session_key@,
                        description: description@,
                        response: response@,
                        timestamp,
                    },
                },
            ),
            old(self)@.consistent() ==> final(self)@.consistent(),
    {
        let record = TaskRecord {
            task_id,
            session_key: session_key.clone(),
            description,
            response,
            timestamp,
        };
        let ghost model = record.deep_view();
        let mut log = self.task_log_of(&session_key);
        let ghost before = log.deep_view();
        log.push(record);
        assert(log.deep_view() =~= before.push(model));
        self.task_history.insert(session_key, log);
        assert(self@ =~= old(self)@.with_task_record(model));
        Ok(())
    }

    /// The transcript of a session.
    pub fn get_transcript(&self, session_key: String) -> (r: Result<Vec<ConversationMessage>, String>)
        ensures
            r is Ok,
            r->Ok_0.deep_view() == self@.transcript(session_key@),
            r->Ok_0.deep_view() == (if self.sessions@.contains_key(session_key@) {
                self.sessions@[session_key@]
            } else {
                Seq::empty()
            }),
    {
        Ok(self.transcript_of(&session_key))
    }

    /// The task log of a session.
    pub fn get_task_history(&self, session_key: String) -> (r: Result<Vec<TaskRecord>, String>)
        ensures
            r is Ok,
            r->Ok_0.deep_view() == self@.task_log(session_key@),
            r->Ok_0.deep_view() == (if self.task_history@.contains_key(session_key@) {
                self.task_history@[session_key@]
            } else {
                Seq::empty()
            }),
    {
        Ok(self.task_log_of(&session_key))
    }

    /// Forgets a session: its transcript, its place in the list, its task log.
    pub fn clear_session(&mut self, session_key: String) -> (r: Result<(), String>)
        ensures
            r is Ok,
            final(self)@ == old(self)@.without_session(session_key@),
            final(self)@ == (StateModel {
                sessions: old(self)@.sessions.remove(session_key@),
                session_keys: old(self)@.session_keys.filter(|key: Seq<char>| key != session_key@),
                task_history: old(self)@.task_history.remove(session_key@),
                ..old(self)@
            }),
            final(self)@ == old(self)@.changed(
                Change::ClearSession { session_key: session_key@ },
            ),
            old(self)@.consistent() ==> final(self)@.consistent(),
    {
        self.sessions.remove(&session_key);
        self.session_keys = names::strike(&self.session_keys, &session_key);
        self.task_history.remove(&session_key);
        assert(self@ =~= old(self)@.without_session(session_key@));
        proof {
            names::without_members(old(self)@.session_keys, session_key@);
        }
        Ok(())
    }

    /// The keys of all sessions, in the order in which they began.
    pub fn list_sessions(&self) -> (r: Result<Vec<String>, String>)
        ensures
            r is Ok,
            r->Ok_0.deep_view() == self@.session_keys,
            r->Ok_0.deep_view() == self.session_keys.deep_view(),
    {
        Ok(names::copied(&self.session_keys))
    }
}

} // verus!
