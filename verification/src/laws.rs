//! What holds across operations.
//!
//! Each law is stated of the models on which the operations' contracts rest: a state is a
//! [`StateModel`], and what an operation does to it is the transition that the operation's
//! contract names.

use crate::conversation;
use crate::json;
use crate::memory;
use crate::names;
use crate::state::StateModel;
use crate::types::{
    AgentModel, ConversationRole, CronModel, MessageModel, TaskRecordModel, Timestamp,
};
use vstd::prelude::*;

verus! {

// ---------------------------------------------------------------------------
// Ordered lists
// ---------------------------------------------------------------------------

/// Picking from a list of which every element yields something drops nothing.
proof fn filter_map_keeps_all<A, B>(s: Seq<A>, f: spec_fn(A) -> Option<B>)
    requires
        forall|i: int| 0 <= i < s.len() ==> f(#[trigger] s[i]) is Some,
    ensures
        s.filter_map(f).len() == s.len(),
        forall|i: int| 0 <= i < s.len() ==> #[trigger] s.filter_map(f)[i] == f(s[i])->0,
    decreases s.len(),
{
    if s.len() > 0 {
        let init = s.drop_last();
        assert forall|i: int| 0 <= i < init.len() implies f(#[trigger] init[i]) is Some by {
            assert(init[i] == s[i]);
        }
        filter_map_keeps_all(init, f);
        assert(f(s[s.len() - 1]) is Some);
        assert forall|i: int| 0 <= i < s.len() implies #[trigger] s.filter_map(f)[i] == f(
            s[i],
        )->0 by {
            if i < init.len() {
                assert(init[i] == s[i]);
                assert(init.filter_map(f)[i] == f(init[i])->0);
            }
        }
    }
}

/// Striking a name from a list, and what is picked under it, strikes it from what is picked.
proof fn striking_before_picking<B>(
    listed: Seq<Seq<char>>,
    name: Seq<char>,
    before: spec_fn(Seq<char>) -> Option<B>,
    after: spec_fn(Seq<char>) -> Option<B>,
    name_of: spec_fn(B) -> Seq<char>,
)
    requires
        forall|n: Seq<char>| #[trigger] before(n) is Some ==> name_of(before(n)->0) == n,
        forall|n: Seq<char>| n != name ==> #[trigger] after(n) == before(n),
    ensures
        names::without(listed, name).filter_map(after) == listed.filter_map(before).filter(
            |b: B| name_of(b) != name,
        ),
    decreases listed.len(),
{
    reveal(Seq::filter);
    let keep = |b: B| name_of(b) != name;
    if listed.len() > 0 {
        let init = listed.drop_last();
        let last = listed.last();
        striking_before_picking(init, name, before, after, name_of);
        let picked = init.filter_map(before);
        if before(last) is Some {
            let b = before(last)->0;
            assert(listed.filter_map(before) =~= picked.push(b));
            assert(picked.push(b).drop_last() =~= picked);
        }
        if last != name {
            assert(names::without(listed, name) =~= names::without(init, name).push(last));
            assert(names::without(listed, name).drop_last() =~= names::without(init, name));
            assert(after(last) == before(last));
        } else {
            assert(names::without(listed, name) =~= names::without(init, name));
        }
        assert(names::without(listed, name).filter_map(after) =~= listed.filter_map(before).filter(
            keep,
        ));
    } else {
        assert(names::without(listed, name).filter_map(after) =~= listed.filter_map(before).filter(
            keep,
        ));
    }
}

/// Nothing registered is left out of the list of agents, and nothing else is in it: it has one
/// agent for each name, in the order of registration.
pub proof fn agent_list_is_complete(state: StateModel)
    requires
        state.consistent(),
    ensures
        state.agents().len() == state.agent_names.len(),
        forall|i: int|
            0 <= i < state.agents().len() ==> #[trigger] state.agents()[i] == (AgentModel {
                name: state.agent_names[i],
                contract_address: state.agent_registry[state.agent_names[i]],
            }),
        forall|name: Seq<char>|
            state.agent_registry.contains_key(name) ==> exists|i: int|
                0 <= i < state.agents().len() && #[trigger] state.agents()[i].name == name,
{
    let pick = |name: Seq<char>| state.agent(name);
    assert forall|i: int| 0 <= i < state.agent_names.len() implies pick(
        #[trigger] state.agent_names[i],
    ) is Some by {
        assert(state.agent_names.contains(state.agent_names[i]));
    }
    filter_map_keeps_all(state.agent_names, pick);
    assert forall|name: Seq<char>| state.agent_registry.contains_key(name) implies exists|i: int|
        0 <= i < state.agents().len() && #[trigger] state.agents()[i].name == name by {
        assert(state.agent_names.contains(name));
        let i = state.agent_names.index_of(name);
        assert(state.agents()[i].name == name);
    }
}

/// Nothing scheduled is left out of the list of cron jobs, and nothing else is in it: it has one
/// job for each id, in the order of creation.
pub proof fn cron_list_is_complete(state: StateModel)
    requires
        state.consistent(),
    ensures
        state.crons().len() == state.cron_ids.len(),
        forall|i: int|
            0 <= i < state.crons().len() ==> #[trigger] state.crons()[i]
                == state.cron_jobs[state.cron_ids[i]] && state.crons()[i].id == state.cron_ids[i],
        forall|id: Seq<char>|
            state.cron_jobs.contains_key(id) ==> exists|i: int|
                0 <= i < state.crons().len() && #[trigger] state.crons()[i].id == id,
{
    let pick = |id: Seq<char>| state.cron(id);
    assert forall|i: int| 0 <= i < state.cron_ids.len() implies pick(
        #[trigger] state.cron_ids[i],
    ) is Some by {
        assert(state.cron_ids.contains(state.cron_ids[i]));
    }
    filter_map_keeps_all(state.cron_ids, pick);
    assert forall|i: int| 0 <= i < state.crons().len() implies #[trigger] state.crons()[i]
        == state.cron_jobs[state.cron_ids[i]] && state.crons()[i].id == state.cron_ids[i] by {
        assert(state.cron_ids.contains(state.cron_ids[i]));
        assert(pick(state.cron_ids[i]) is Some);
    }
    assert forall|id: Seq<char>| state.cron_jobs.contains_key(id) implies exists|i: int|
        0 <= i < state.crons().len() && #[trigger] state.crons()[i].id == id by {
        assert(state.cron_ids.contains(id));
        let i = state.cron_ids.index_of(id);
        assert(state.crons()[i].id == id);
    }
}

proof fn index_counts<V>(listed: Seq<Seq<char>>, map: Map<Seq<char>, V>)
    requires
        crate::state::indexes(listed, map),
    ensures
        map.dom().finite(),
        map.dom().len() == listed.len(),
{
    listed.unique_seq_to_set();
    assert(map.dom() =~= listed.to_set());
    vstd::seq_lib::seq_to_set_is_finite(listed);
}

/// The counts in the status are the numbers of sessions, cron jobs and agents that are stored.
pub proof fn status_counts_what_is_stored(state: StateModel)
    requires
        state.consistent(),
    ensures
        state.sessions.dom().finite() && state.session_keys.len() == state.sessions.dom().len(),
        state.cron_jobs.dom().finite() && state.cron_ids.len() == state.cron_jobs.dom().len(),
        state.agent_registry.dom().finite() && state.agent_names.len()
            == state.agent_registry.dom().len(),
{
    index_counts(state.session_keys, state.sessions);
    index_counts(state.cron_ids, state.cron_jobs);
    index_counts(state.agent_names, state.agent_registry);
}

// ---------------------------------------------------------------------------
// Agents
// ---------------------------------------------------------------------------

/// A newly registered agent comes last in the list; the rest of the list stays as it was.
pub proof fn registered_agent_is_listed_last(
    state: StateModel,
    name: Seq<char>,
    contract_address: Seq<char>,
)
    requires
        state.consistent(),
        !state.agent_registry.contains_key(name),
    ensures
        state.with_agent(name, contract_address).agents() == state.agents().push(
            AgentModel { name, contract_address },
        ),
{
    let after = state.with_agent(name, contract_address);
    names::push_new_name(state.agent_names, name);
    agent_list_is_complete(state);
    agent_list_is_complete(after);
    assert forall|i: int| 0 <= i < after.agents().len() implies #[trigger] after.agents()[i]
        == state.agents().push(AgentModel { name, contract_address })[i] by {
        if i < state.agents().len() {
            assert(state.agents()[i].name == state.agent_names[i]);
            assert(state.agent_names.contains(state.agent_names[i]));
        }
    }
    assert(after.agents() =~= state.agents().push(AgentModel { name, contract_address }));
}

/// Removing an agent just registered restores the state.
pub proof fn unregister_undoes_register(
    state: StateModel,
    name: Seq<char>,
    contract_address: Seq<char>,
)
    requires
        state.consistent(),
        !state.agent_registry.contains_key(name),
    ensures
        state.with_agent(name, contract_address).without_agent(name) == state,
{
    names::without_pushed(state.agent_names, name);
    assert(state.with_agent(name, contract_address).without_agent(name) =~= state);
}

/// A removed agent is gone, and its name is free again; every other agent keeps its address.
pub proof fn unregistered_agent_is_gone(state: StateModel, name: Seq<char>, other: Seq<char>)
    requires
        other != name,
    ensures
        state.without_agent(name).agent(name) is None,
        !state.without_agent(name).agent_names.contains(name),
        state.without_agent(name).agent(other) == state.agent(other),
        state.without_agent(name).agent_names.contains(other) == state.agent_names.contains(other),
{
    names::without_members(state.agent_names, name);
}

/// The list of agents after a removal is the one before without that agent, in the same order.
pub proof fn unregistered_agent_is_unlisted(state: StateModel, name: Seq<char>)
    ensures
        state.without_agent(name).agents() == state.agents().filter(
            |agent: AgentModel| agent.name != name,
        ),
{
    let after = state.without_agent(name);
    striking_before_picking(
        state.agent_names,
        name,
        |n: Seq<char>| state.agent(n),
        |n: Seq<char>| after.agent(n),
        |agent: AgentModel| agent.name,
    );
    assert((|agent: AgentModel| (|a: AgentModel| a.name)(agent) != name) =~= (
    |agent: AgentModel| agent.name != name));
}

// ---------------------------------------------------------------------------
// Sessions
// ---------------------------------------------------------------------------

/// What is appended is read back: the transcript is the one before with the message at its end,
/// the session is listed, and no other session is touched.
pub proof fn appended_message_is_read_back(
    state: StateModel,
    session_key: Seq<char>,
    message: MessageModel,
    other: Seq<char>,
)
    requires
        other != session_key,
    ensures
        state.with_message(session_key, message).transcript(session_key) == state.transcript(
            session_key,
        ).push(message),
        state.with_message(session_key, message).session_keys.contains(session_key),
        state.with_message(session_key, message).transcript(other) == state.transcript(other),
        state.with_message(session_key, message).session_keys.contains(other)
            == state.session_keys.contains(other),
        state.with_message(session_key, message).task_log(session_key) == state.task_log(
            session_key,
        ),
{
    names::push_new_name(state.session_keys, session_key);
}

/// Sessions are listed in the order in which they began: a message to a listed session leaves the
/// list alone, a message to a new one adds it at the end.
pub proof fn sessions_are_listed_in_order_of_beginning(
    state: StateModel,
    session_key: Seq<char>,
    message: MessageModel,
)
    requires
        state.consistent(),
    ensures
        state.sessions.contains_key(session_key) ==> state.with_message(
            session_key,
            message,
        ).session_keys == state.session_keys,
        !state.sessions.contains_key(session_key) ==> state.with_message(
            session_key,
            message,
        ).session_keys == state.session_keys.push(session_key),
{
    assert(state.session_keys.contains(session_key) <==> state.sessions.contains_key(session_key));
}

/// What is logged is read back: the log is the one before with the record at its end, and no other
/// session's log, and no transcript, is touched.
pub proof fn stored_record_is_read_back(
    state: StateModel,
    record: TaskRecordModel,
    other: Seq<char>,
)
    requires
        other != record.session_key,
    ensures
        state.with_task_record(record).task_log(record.session_key) == state.task_log(
            record.session_key,
        ).push(record),
        state.with_task_record(record).task_log(other) == state.task_log(other),
        state.with_task_record(record).transcript(record.session_key) == state.transcript(
            record.session_key,
        ),
{
}

/// After a turn (the user's message, the assistant's reply, the record of the task) the transcript
/// has grown by exactly these two messages, in this order, and the log by exactly this record.
pub proof fn turn_is_kept(
    state: StateModel,
    session_key: Seq<char>,
    user: MessageModel,
    assistant: MessageModel,
    record: TaskRecordModel,
)
    requires
        record.session_key == session_key,
    ensures
        ({
            let after = state.with_message(session_key, user).with_message(
                session_key,
                assistant,
            ).with_task_record(record);
            &&& after.transcript(session_key) == state.transcript(session_key) + seq![
                user,
                assistant,
            ]
            &&& after.task_log(session_key) == state.task_log(session_key).push(record)
        }),
{
    assert(state.transcript(session_key).push(user).push(assistant) =~= state.transcript(
        session_key,
    ) + seq![user, assistant]);
}

/// A cleared session has no transcript, no log and no place in the list; every other session keeps
/// all three.
pub proof fn cleared_session_is_gone(state: StateModel, session_key: Seq<char>, other: Seq<char>)
    requires
        other != session_key,
    ensures
        state.without_session(session_key).transcript(session_key).len() == 0,
        state.without_session(session_key).task_log(session_key).len() == 0,
        !state.without_session(session_key).session_keys.contains(session_key),
        state.without_session(session_key).transcript(other) == state.transcript(other),
        state.without_session(session_key).task_log(other) == state.task_log(other),
        state.without_session(session_key).session_keys.contains(other)
            == state.session_keys.contains(other),
{
    names::without_members(state.session_keys, session_key);
}

/// Clearing a session just begun restores the state.
pub proof fn clear_undoes_the_first_message(
    state: StateModel,
    session_key: Seq<char>,
    message: MessageModel,
)
    requires
        state.consistent(),
        !state.sessions.contains_key(session_key),
        !state.task_history.contains_key(session_key),
    ensures
        state.with_message(session_key, message).without_session(session_key) == state,
{
    assert(!state.session_keys.contains(session_key));
    names::without_pushed(state.session_keys, session_key);
    assert(state.with_message(session_key, message).without_session(session_key) =~= state);
}

/// Clearing twice is clearing once.
pub proof fn clearing_again_changes_nothing(state: StateModel, session_key: Seq<char>)
    ensures
        state.without_session(session_key).without_session(session_key) == state.without_session(
            session_key,
        ),
{
    let once = state.without_session(session_key);
    names::without_members(state.session_keys, session_key);
    names::without_absent(once.session_keys, session_key);
    assert(once.without_session(session_key) =~= once);
}

// ---------------------------------------------------------------------------
// Prompts
// ---------------------------------------------------------------------------

/// Whatever was said before, the description of a task ends with the current message.
pub proof fn description_ends_with_the_message(
    message: Seq<char>,
    history: Seq<MessageModel>,
    max_turns: nat,
)
    ensures
        message.is_suffix_of(conversation::task_description(message, history, max_turns)),
{
    let whole = conversation::task_description(message, history, max_turns);
    assert(whole.skip(whole.len() - message.len()) =~= message);
}

/// A description carries no more than the last `max_turns` turns: what was said before them does
/// not change it.
pub proof fn older_messages_do_not_matter(
    message: Seq<char>,
    older: Seq<MessageModel>,
    recent: Seq<MessageModel>,
    max_turns: nat,
)
    requires
        recent.len() > 0,
        recent.len() >= 2 * max_turns,
    ensures
        conversation::task_description(message, older + recent, max_turns)
            == conversation::task_description(message, recent, max_turns),
{
    assert(conversation::last_messages(older + recent, 2 * max_turns)
        =~= conversation::last_messages(recent, 2 * max_turns));
}

/// The next message in a session carries the turn before it: after a turn, the description quotes
/// the recent conversation before that turn, shortened by one turn, and then both its messages.
pub proof fn next_description_quotes_the_turn(
    message: Seq<char>,
    history: Seq<MessageModel>,
    user: MessageModel,
    assistant: MessageModel,
    max_turns: nat,
)
    requires
        max_turns >= 1,
    ensures
        conversation::task_description(message, history + seq![user, assistant], max_turns)
            == "Previous conversation:\n"@ + (conversation::message_lines(
            conversation::last_messages(history, (2 * (max_turns - 1)) as nat),
        ) + conversation::message_line(user) + conversation::message_line(assistant)) + "\n"@
            + "Current message: "@ + message,
{
    let turn = seq![user, assistant];
    let kept = conversation::last_messages(history, (2 * (max_turns - 1)) as nat);
    let both = conversation::last_messages(history + turn, 2 * max_turns);
    assert(both =~= kept + turn);
    assert(both.last() == assistant);
    assert(both.drop_last() =~= kept.push(user));
    assert(both.drop_last().last() == user);
    assert(both.drop_last().drop_last() =~= kept);
    assert(conversation::message_lines(both.drop_last()) == conversation::message_lines(kept)
        + conversation::message_line(user));
    assert(conversation::message_lines(both) == conversation::message_lines(kept)
        + conversation::message_line(user) + conversation::message_line(assistant));
}

/// Where at least one turn is kept, the task for the next message of a session quotes the turn
/// that was just stored.
pub proof fn next_message_carries_the_turn(
    state: StateModel,
    session_key: Seq<char>,
    user: MessageModel,
    assistant: MessageModel,
    record: TaskRecordModel,
    message: Seq<char>,
    task_id: Seq<char>,
    mcp_contract_address: Seq<char>,
)
    requires
        record.session_key == session_key,
        state.config.max_history_turns >= 1,
    ensures
        state.with_message(session_key, user).with_message(session_key, assistant).with_task_record(
            record,
        ).message_task(session_key, message, task_id, mcp_contract_address).description
            == "Previous conversation:\n"@ + (conversation::message_lines(
            conversation::last_messages(
                state.transcript(session_key),
                (2 * (state.config.max_history_turns - 1)) as nat,
            ),
        ) + conversation::message_line(user) + conversation::message_line(assistant)) + "\n"@
            + "Current message: "@ + message,
{
    turn_is_kept(state, session_key, user, assistant, record);
    next_description_quotes_the_turn(
        message,
        state.transcript(session_key),
        user,
        assistant,
        state.config.max_history_turns as nat,
    );
}

// ---------------------------------------------------------------------------
// Cron jobs
// ---------------------------------------------------------------------------

/// A new cron job comes last in the list; the rest of the list stays as it was.
pub proof fn created_cron_is_listed_last(state: StateModel, job: CronModel)
    requires
        state.consistent(),
        !state.cron_jobs.contains_key(job.id),
    ensures
        state.with_cron(job).crons() == state.crons().push(job),
{
    let after = state.with_cron(job);
    names::push_new_name(state.cron_ids, job.id);
    cron_list_is_complete(state);
    cron_list_is_complete(after);
    assert forall|i: int| 0 <= i < after.crons().len() implies #[trigger] after.crons()[i]
        == state.crons().push(job)[i] by {
        if i < state.crons().len() {
            assert(state.crons()[i].id == state.cron_ids[i]);
            assert(state.cron_ids.contains(state.cron_ids[i]));
        }
    }
    assert(after.crons() =~= state.crons().push(job));
}

/// Deleting a cron job just created restores the state.
pub proof fn delete_undoes_create(state: StateModel, job: CronModel)
    requires
        state.consistent(),
        !state.cron_jobs.contains_key(job.id),
    ensures
        state.with_cron(job).without_cron(job.id) == state,
{
    names::without_pushed(state.cron_ids, job.id);
    assert(state.with_cron(job).without_cron(job.id) =~= state);
}

/// A deleted cron job is gone; every other one stays as it was.
pub proof fn deleted_cron_is_gone(state: StateModel, id: Seq<char>, other: Seq<char>)
    requires
        other != id,
    ensures
        state.without_cron(id).cron(id) is None,
        !state.without_cron(id).cron_ids.contains(id),
        state.without_cron(id).cron(other) == state.cron(other),
        state.without_cron(id).cron_ids.contains(other) == state.cron_ids.contains(other),
{
    names::without_members(state.cron_ids, id);
}

/// Noting a run changes the time of the last run of that job and nothing else; of two runs noted,
/// the later note stays.
pub proof fn touching_changes_the_last_run_only(
    state: StateModel,
    id: Seq<char>,
    first: Timestamp,
    second: Timestamp,
    other: Seq<char>,
)
    requires
        state.cron_jobs.contains_key(id),
        other != id,
    ensures
        state.with_cron_run(id, first).cron(id) == Some(
            CronModel { last_run_timestamp: Some(first), ..state.cron_jobs[id] },
        ),
        state.with_cron_run(id, first).cron(other) == state.cron(other),
        state.with_cron_run(id, first).cron_ids == state.cron_ids,
        state.with_cron_run(id, first).with_cron_run(id, second) == state.with_cron_run(id, second),
{
    assert(state.with_cron_run(id, first).with_cron_run(id, second) =~= state.with_cron_run(
        id,
        second,
    ));
}

/// The list of cron jobs after a deletion is the one before without that job, in the same order.
pub proof fn deleted_cron_is_unlisted(state: StateModel, id: Seq<char>)
    requires
        state.consistent(),
    ensures
        state.without_cron(id).crons() == state.crons().filter(|job: CronModel| job.id != id),
{
    let after = state.without_cron(id);
    striking_before_picking(
        state.cron_ids,
        id,
        |n: Seq<char>| state.cron(n),
        |n: Seq<char>| after.cron(n),
        |job: CronModel| job.id,
    );
    assert((|job: CronModel| (|j: CronModel| j.id)(job) != id) =~= (|job: CronModel| job.id != id));
}

/// A cron job that ran keeps its place in the list, and every other entry stays as it was.
pub proof fn touched_cron_keeps_its_place(state: StateModel, id: Seq<char>, timestamp: Timestamp)
    requires
        state.consistent(),
        state.cron_jobs.contains_key(id),
    ensures
        state.with_cron_run(id, timestamp).crons() == state.crons().map_values(
            |job: CronModel|
                if job.id == id {
                    CronModel { last_run_timestamp: Some(timestamp), ..job }
                } else {
                    job
                },
        ),
{
    let after = state.with_cron_run(id, timestamp);
    cron_list_is_complete(state);
    cron_list_is_complete(after);
    assert(after.crons() =~= state.crons().map_values(
        |job: CronModel|
            if job.id == id {
                CronModel { last_run_timestamp: Some(timestamp), ..job }
            } else {
                job
            },
    ));
}

// ---------------------------------------------------------------------------
// Memory
// ---------------------------------------------------------------------------

/// What a caller remembers is recalled, and nothing that the same caller remembers under another
/// key changes.
pub proof fn remembered_value_is_recalled(
    state: StateModel,
    caller: Seq<char>,
    key: Seq<char>,
    value: Seq<char>,
    other: Seq<char>,
)
    requires
        other != key,
    ensures
        state.with_memory(caller, key, value).memory(caller, key) == Some(value),
        state.with_memory(caller, key, value).memory(caller, other) == state.memory(caller, other),
{
    if memory::memory_key(caller, key) == memory::memory_key(caller, other) {
        crate::text::concat_cancels_left(caller + ":"@, key, other);
    }
}

/// What was forgotten is not recalled, and nothing that the same caller remembers under another
/// key changes; forgetting what was newly remembered restores the state.
pub proof fn forgotten_value_is_gone(
    state: StateModel,
    caller: Seq<char>,
    key: Seq<char>,
    value: Seq<char>,
    other: Seq<char>,
)
    requires
        other != key,
    ensures
        state.without_memory(caller, key).memory(caller, key) is None,
        state.without_memory(caller, key).memory(caller, other) == state.memory(caller, other),
        state.memory(caller, key) is None ==> state.with_memory(caller, key, value).without_memory(
            caller,
            key,
        ) == state,
{
    if memory::memory_key(caller, key) == memory::memory_key(caller, other) {
        crate::text::concat_cancels_left(caller + ":"@, key, other);
    }
    if state.memory(caller, key) is None {
        assert(state.with_memory(caller, key, value).without_memory(caller, key) =~= state);
    }
}

/// One of two addresses is the other one followed by a colon and whatever comes after it.
pub open spec fn addresses_overlap(a: Seq<char>, b: Seq<char>) -> bool {
    (a + ":"@).is_prefix_of(b) || (b + ":"@).is_prefix_of(a)
}

/// Memory is the caller's own: neither remembering nor forgetting changes what another caller
/// recalls, as long as the addresses do not overlap.
pub proof fn memory_is_per_caller(
    state: StateModel,
    caller: Seq<char>,
    key: Seq<char>,
    value: Seq<char>,
    other_caller: Seq<char>,
    other_key: Seq<char>,
)
    requires
        caller != other_caller,
        !addresses_overlap(caller, other_caller),
    ensures
        state.with_memory(caller, key, value).memory(other_caller, other_key) == state.memory(
            other_caller,
            other_key,
        ),
        state.without_memory(caller, key).memory(other_caller, other_key) == state.memory(
            other_caller,
            other_key,
        ),
{
    if memory::memory_key(caller, key) == memory::memory_key(other_caller, other_key) {
        shared_key_needs_overlap(caller, key, other_caller, other_key);
    }
}

proof fn shared_key_needs_overlap(a: Seq<char>, k: Seq<char>, b: Seq<char>, l: Seq<char>)
    requires
        a != b,
        memory::memory_key(a, k) == memory::memory_key(b, l),
    ensures
        addresses_overlap(a, b),
{
    reveal_strlit(":");
    let whole = memory::memory_key(a, k);
    assert(whole.take(a.len() as int) =~= a);
    assert(whole.take(b.len() as int) =~= b);
    assert(a.len() != b.len());
    if a.len() < b.len() {
        assert((a + ":"@).is_prefix_of(b)) by {
            assert(whole.take(a.len() as int + 1) =~= a + ":"@);
            assert(b.take(a.len() as int + 1) =~= whole.take(a.len() as int + 1));
        }
    } else {
        assert((b + ":"@).is_prefix_of(a)) by {
            assert(whole.take(b.len() as int + 1) =~= b + ":"@);
            assert(a.take(b.len() as int + 1) =~= whole.take(b.len() as int + 1));
        }
    }
}

/// Overlapping addresses do share memory: there are keys under which both reach the same value.
pub proof fn overlapping_addresses_share_memory(a: Seq<char>, b: Seq<char>)
    requires
        addresses_overlap(a, b),
    ensures
        exists|k: Seq<char>, l: Seq<char>| #[trigger]
            memory::memory_key(a, k) == #[trigger] memory::memory_key(b, l),
{
    if (a + ":"@).is_prefix_of(b) {
        let rest = b.skip((a + ":"@).len() as int);
        assert(memory::memory_key(a, rest + ":"@) =~= memory::memory_key(b, Seq::empty()));
    } else {
        let rest = a.skip((b + ":"@).len() as int);
        assert(memory::memory_key(a, Seq::empty()) =~= memory::memory_key(b, rest + ":"@));
    }
}

// ---------------------------------------------------------------------------
// JSON
// ---------------------------------------------------------------------------

/// A text without quotation marks, backslashes and control characters stands in JSON as it is.
pub proof fn plain_text_is_quoted_as_it_is(text: Seq<char>)
    requires
        forall|i: int|
            0 <= i < text.len() ==> #[trigger] text[i] != '"' && text[i] != '\\' && text[i] as u32
                >= 32,
    ensures
        json::json_string(text) == seq!['"'] + text + seq!['"'],
{
    plain_text_needs_no_escape(text);
}

proof fn plain_text_needs_no_escape(text: Seq<char>)
    requires
        forall|i: int|
            0 <= i < text.len() ==> #[trigger] text[i] != '"' && text[i] != '\\' && text[i] as u32
                >= 32,
    ensures
        json::escaped(text) == text,
    decreases text.len(),
{
    if text.len() > 0 {
        let init = text.drop_last();
        assert forall|i: int| 0 <= i < init.len() implies #[trigger] init[i] != '"' && init[i]
            != '\\' && init[i] as u32 >= 32 by {
            assert(init[i] == text[i]);
        }
        plain_text_needs_no_escape(init);
        assert(text[text.len() - 1] != '"');
        assert(json::escaped(text) =~= text);
    } else {
        assert(json::escaped(text) =~= text);
    }
}

// ---------------------------------------------------------------------------
// What is read is what is stored
// ---------------------------------------------------------------------------

/// A read gives what is stored under the name asked for, and nothing where nothing is stored.
pub proof fn reads_give_what_is_stored(state: StateModel, caller: Seq<char>, key: Seq<char>)
    ensures
        state.sessions.contains_key(key) ==> state.transcript(key) == state.sessions[key],
        !state.sessions.contains_key(key) ==> state.transcript(key).len() == 0,
        state.task_history.contains_key(key) ==> state.task_log(key) == state.task_history[key],
        !state.task_history.contains_key(key) ==> state.task_log(key).len() == 0,
        state.cron_jobs.contains_key(key) ==> state.cron(key) == Some(state.cron_jobs[key]),
        !state.cron_jobs.contains_key(key) ==> state.cron(key) is None,
        state.agent_registry.contains_key(key) ==> state.agent(key) == Some(
            AgentModel { name: key, contract_address: state.agent_registry[key] },
        ),
        !state.agent_registry.contains_key(key) ==> state.agent(key) is None,
        memory::memory_key(caller, key) == caller + ":"@ + key,
        state.user_memory.contains_key(caller + ":"@ + key) ==> state.memory(caller, key) == Some(
            state.user_memory[caller + ":"@ + key],
        ),
        !state.user_memory.contains_key(caller + ":"@ + key) ==> state.memory(caller, key) is None,
        crate::crons::cron_not_found(key) == "Cron job '"@ + key + "' not found"@,
{
}

/// The lists of agents and of cron jobs follow the order of the names: one more name at the end adds
/// what is stored under it at the end, and nothing where nothing is stored.
pub proof fn lists_follow_the_names(state: StateModel, listed: Seq<Seq<char>>, name: Seq<char>)
    ensures
        (StateModel { agent_names: Seq::empty(), ..state }).agents().len() == 0,
        (StateModel { agent_names: listed.push(name), ..state }).agents() == (StateModel {
            agent_names: listed,
            ..state
        }).agents() + (if state.agent_registry.contains_key(name) {
            seq![AgentModel { name, contract_address: state.agent_registry[name] }]
        } else {
            Seq::empty()
        }),
        (StateModel { cron_ids: Seq::empty(), ..state }).crons().len() == 0,
        (StateModel { cron_ids: listed.push(name), ..state }).crons() == (StateModel {
            cron_ids: listed,
            ..state
        }).crons() + (if state.cron_jobs.contains_key(name) {
            seq![state.cron_jobs[name]]
        } else {
            Seq::empty()
        }),
{
    let longer = listed.push(name);
    assert(longer.drop_last() =~= listed);
    let with_name = StateModel { agent_names: longer, ..state };
    let with_id = StateModel { cron_ids: longer, ..state };
    let short_names = StateModel { agent_names: listed, ..state };
    let short_ids = StateModel { cron_ids: listed, ..state };
    assert((|n: Seq<char>| with_name.agent(n)) =~= (|n: Seq<char>| short_names.agent(n)));
    assert((|n: Seq<char>| with_id.cron(n)) =~= (|n: Seq<char>| short_ids.cron(n)));
    assert(with_name.agents() =~= short_names.agents() + (if state.agent_registry.contains_key(
        name,
    ) {
        seq![AgentModel { name, contract_address: state.agent_registry[name] }]
    } else {
        Seq::empty()
    }));
    assert(with_id.crons() =~= short_ids.crons() + (if state.cron_jobs.contains_key(name) {
        seq![state.cron_jobs[name]]
    } else {
        Seq::empty()
    }));
}

// ---------------------------------------------------------------------------
// Removals and the order of the rest
// ---------------------------------------------------------------------------

/// Clearing a session closes the gap in the list: the sessions that began before it and those that
/// began after it stay, in the same order. A session that is not listed leaves the list alone.
pub proof fn clearing_keeps_the_order_of_the_rest(
    state: StateModel,
    earlier: Seq<Seq<char>>,
    session_key: Seq<char>,
    later: Seq<Seq<char>>,
)
    requires
        !earlier.contains(session_key),
        !later.contains(session_key),
    ensures
        state.session_keys == earlier + seq![session_key] + later ==> state.without_session(
            session_key,
        ).session_keys == earlier + later,
        state.session_keys == earlier ==> state.without_session(session_key).session_keys
            == earlier,
{
    names::striking_closes_the_gap(earlier, later, session_key);
    names::without_absent(earlier, session_key);
}

/// Two sessions that remain after a clearing are listed in the same order as before.
pub proof fn remaining_sessions_keep_their_order(
    state: StateModel,
    session_key: Seq<char>,
    first: Seq<char>,
    second: Seq<char>,
)
    requires
        state.session_keys.no_duplicates(),
        state.session_keys.contains(first),
        state.session_keys.contains(second),
        first != session_key,
        second != session_key,
        state.session_keys.index_of(first) < state.session_keys.index_of(second),
    ensures
        ({
            let after = state.without_session(session_key).session_keys;
            &&& after.contains(first)
            &&& after.contains(second)
            &&& after.index_of(first) < after.index_of(second)
        }),
{
    let all = state.session_keys;
    let after = state.without_session(session_key).session_keys;
    names::without_members(all, session_key);
    if all.contains(session_key) {
        let place = all.index_of(session_key);
        let earlier = all.take(place);
        let later = all.skip(place + 1);
        assert(all =~= earlier + seq![session_key] + later);
        assert(!earlier.contains(session_key)) by {
            if earlier.contains(session_key) {
                let i = earlier.index_of(session_key);
                assert(all[i] == all[place]);
            }
        }
        assert(!later.contains(session_key)) by {
            if later.contains(session_key) {
                let i = later.index_of(session_key);
                assert(all[place + 1 + i] == all[place]);
            }
        }
        clearing_keeps_the_order_of_the_rest(state, earlier, session_key, later);
        assert forall|i: int| 0 <= i < after.len() implies #[trigger] after[i] == all[if i < place {
            i
        } else {
            i + 1
        }] by {}
    } else {
        names::without_absent(all, session_key);
    }
    assert(names::without(all, session_key).contains(first));
    assert(names::without(all, session_key).contains(second));
    let i = after.index_of(first);
    let j = after.index_of(second);
    assert(after[i] == first && after[j] == second);
    assert(all[all.index_of(first)] == first && all[all.index_of(second)] == second);
}

/// Removing an agent, or deleting a cron job, closes the gap in its list: the names before and after
/// it stay, in the same order.
pub proof fn removing_keeps_the_order_of_the_rest(
    state: StateModel,
    earlier: Seq<Seq<char>>,
    name: Seq<char>,
    later: Seq<Seq<char>>,
)
    requires
        !earlier.contains(name),
        !later.contains(name),
    ensures
        state.agent_names == earlier + seq![name] + later ==> state.without_agent(name).agent_names
            == earlier + later,
        state.cron_ids == earlier + seq![name] + later ==> state.without_cron(name).cron_ids
            == earlier + later,
{
    names::striking_closes_the_gap(earlier, later, name);
}

// ---------------------------------------------------------------------------
// Quoted conversation
// ---------------------------------------------------------------------------

/// A message is quoted whole: its line is the name of the speaker, a colon and a space, all of the
/// content whatever its length, and a line break.
pub proof fn messages_are_quoted_whole(message: MessageModel)
    ensures
        ({
            let speaker = match message.role {
                ConversationRole::User => "User"@,
                ConversationRole::Assistant => "Assistant"@,
                ConversationRole::System => "System"@,
            };
            let line = conversation::message_line(message);
            &&& line == speaker + ": "@ + message.content + "\n"@
            &&& line.len() == speaker.len() + message.content.len() + 3
            &&& line.subrange(
                speaker.len() as int + 2,
                speaker.len() as int + 2 + message.content.len(),
            ) == message.content
        }),
{
    reveal_strlit(": ");
    reveal_strlit("\n");
    let speaker = conversation::role_name(message.role);
    let line = conversation::message_line(message);
    assert(line.subrange(
        speaker.len() as int + 2,
        speaker.len() as int + 2 + message.content.len(),
    ) =~= message.content);
}

/// Messages are quoted line by line: nothing for no message, its line for one, and the lines of two
/// series one after the other.
pub proof fn messages_are_quoted_line_by_line(
    a: Seq<MessageModel>,
    b: Seq<MessageModel>,
    message: MessageModel,
)
    ensures
        conversation::message_lines(Seq::empty()).len() == 0,
        conversation::message_lines(seq![message]) == conversation::message_line(message),
        conversation::message_lines(a + b) == conversation::message_lines(a)
            + conversation::message_lines(b),
    decreases b.len(),
{
    assert(seq![message].drop_last() =~= Seq::<MessageModel>::empty());
    assert(conversation::message_lines(seq![message].drop_last()) =~= Seq::<char>::empty());
    assert(conversation::message_lines(seq![message]) =~= conversation::message_line(message));
    if b.len() == 0 {
        assert(a + b =~= a);
    } else {
        messages_are_quoted_line_by_line(a, b.drop_last(), message);
        assert((a + b).drop_last() =~= a + b.drop_last());
    }
    assert(conversation::message_lines(a + b) =~= conversation::message_lines(a)
        + conversation::message_lines(b));
}

/// The recent conversation is the end of the whole one: as many messages as asked for, or all where
/// there are no more.
pub proof fn recent_messages_are_the_last_ones(history: Seq<MessageModel>, count: nat)
    ensures
        conversation::last_messages(history, count).is_suffix_of(history),
        conversation::last_messages(history, count).len() == if history.len() < count {
            history.len()
        } else {
            count
        },
{
}

/// A description is the message alone where nothing was said before. Else it is a heading, the lines
/// of the recent messages, an empty line, and the message under its own heading.
pub proof fn description_in_full(
    message: Seq<char>,
    older: Seq<MessageModel>,
    recent: Seq<MessageModel>,
    max_turns: nat,
)
    requires
        recent.len() == 2 * max_turns || (older.len() == 0 && recent.len() <= 2 * max_turns),
    ensures
        conversation::task_description(message, Seq::empty(), max_turns) == message,
        older.len() + recent.len() > 0 ==> conversation::task_description(
            message,
            older + recent,
            max_turns,
        ) == "Previous conversation:\n"@ + conversation::message_lines(recent) + "\n"@
            + "Current message: "@ + message,
{
    assert(conversation::last_messages(older + recent, 2 * max_turns) =~= recent);
}

/// The task for a message is built from that session's own conversation, under the id and for the
/// contract that it was asked for.
pub proof fn message_tasks_carry_their_own_session(
    state: StateModel,
    session_key: Seq<char>,
    message: Seq<char>,
    task_id: Seq<char>,
    address: Seq<char>,
    other: Seq<char>,
    said: MessageModel,
)
    requires
        other != session_key,
    ensures
        ({
            let task = state.message_task(session_key, message, task_id, address);
            &&& task.task_id == task_id
            &&& task.mcp_contract_address == address
            &&& task.description == conversation::task_description(
                message,
                state.transcript(session_key),
                state.config.max_history_turns as nat,
            )
            &&& task == state.with_message(other, said).message_task(
                session_key,
                message,
                task_id,
                address,
            )
        }),
{
}

} // verus!
