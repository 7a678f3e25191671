//! Every change that a mutation can make, and how much of the state it needs.

use crate::names;
use crate::state::StateModel;
use crate::store::StorageIds;
use crate::types::{ConfigModel, CronModel, MessageModel, TaskRecordModel, Timestamp};
use vstd::prelude::*;

verus! {

/// A request to change the state.
pub enum Change {
    Configure { config: ConfigModel },
    RegisterAgent { name: Seq<char>, contract_address: Seq<char> },
    UnregisterAgent { name: Seq<char> },
    AppendMessage { session_key: Seq<char>, message: MessageModel },
    StoreTaskRecord { record: TaskRecordModel },
    ClearSession { session_key: Seq<char> },
    CreateCron { job: CronModel },
    TouchCron { id: Seq<char>, timestamp: Timestamp },
    DeleteCron { id: Seq<char> },
    Remember { caller: Seq<char>, key: Seq<char>, value: Seq<char> },
    Forget { caller: Seq<char>, key: Seq<char> },
}

/// The entries of the keyed collections that are at hand.
#[verifier::ext_equal]
pub struct Footprint {
    pub sessions: Set<Seq<char>>,
    pub cron_jobs: Set<Seq<char>>,
    pub user_memory: Set<Seq<char>>,
    pub task_history: Set<Seq<char>>,
    pub agent_registry: Set<Seq<char>>,
}

impl Footprint {
    /// No entry.
    pub open spec fn none() -> Footprint {
        Footprint {
            sessions: Set::empty(),
            cron_jobs: Set::empty(),
            user_memory: Set::empty(),
            task_history: Set::empty(),
            agent_registry: Set::empty(),
        }
    }

    /// Whether every entry here is also in `other`.
    pub open spec fn within(self, other: Footprint) -> bool {
        &&& self.sessions.subset_of(other.sessions)
        &&& self.cron_jobs.subset_of(other.cron_jobs)
        &&& self.user_memory.subset_of(other.user_memory)
        &&& self.task_history.subset_of(other.task_history)
        &&& self.agent_registry.subset_of(other.agent_registry)
    }
}

impl Change {
    /// The entries that the change reads or writes.
    pub open spec fn footprint(self) -> Footprint {
        match self {
            Change::Configure { .. } => Footprint::none(),
            Change::RegisterAgent { name, .. } => Footprint {
                agent_registry: set![name],
                ..Footprint::none()
            },
            Change::UnregisterAgent { name } => Footprint {
                agent_registry: set![name],
                ..Footprint::none()
            },
            Change::AppendMessage { session_key, .. } => Footprint {
                sessions: set![session_key],
                ..Footprint::none()
            },
            Change::StoreTaskRecord { record } => Footprint {
                task_history: set![record.session_key],
                ..Footprint::none()
            },
            Change::ClearSession { session_key } => Footprint {
                sessions: set![session_key],
                task_history: set![session_key],
                ..Footprint::none()
            },
            Change::CreateCron { job } => Footprint {
                cron_jobs: set![job.id],
                ..Footprint::none()
            },
            Change::TouchCron { id, .. } => Footprint { cron_jobs: set![id], ..Footprint::none() },
            Change::DeleteCron { id } => Footprint { cron_jobs: set![id], ..Footprint::none() },
            Change::Remember { caller, key, .. } => Footprint {
                user_memory: set![crate::memory::memory_key(caller, key)],
                ..Footprint::none()
            },
            Change::Forget { caller, key } => Footprint {
                user_memory: set![crate::memory::memory_key(caller, key)],
                ..Footprint::none()
            },
        }
    }
}

/// `map` with its entries under the keys `keys` replaced by those of `part`.
pub open spec fn replaced_at<V>(
    map: Map<Seq<char>, V>,
    keys: Set<Seq<char>>,
    part: Map<Seq<char>, V>,
) -> Map<Seq<char>, V> {
    Map::new(
        |key: Seq<char>|
            if keys.contains(key) {
                part.contains_key(key)
            } else {
                map.contains_key(key)
            },
        |key: Seq<char>|
            if keys.contains(key) {
                part[key]
            } else {
                map[key]
            },
    )
}

impl StateModel {
    /// The state after a request to change it; one that is refused leaves it as it is.
    pub open spec fn changed(self, change: Change) -> StateModel {
        match change {
            Change::Configure { config } => StateModel { config, ..self },
            Change::RegisterAgent { name, contract_address } => if self.agent_registry.contains_key(
                name,
            ) {
                self
            } else {
                self.with_agent(name, contract_address)
            },
            Change::UnregisterAgent { name } => if self.agent_registry.contains_key(name) {
                self.without_agent(name)
            } else {
                self
            },
            Change::AppendMessage { session_key, message } => self.with_message(
                session_key,
                message,
            ),
            Change::StoreTaskRecord { record } => self.with_task_record(record),
            Change::ClearSession { session_key } => self.without_session(session_key),
            Change::CreateCron { job } => if self.cron_jobs.contains_key(job.id) {
                self
            } else {
                self.with_cron(job)
            },
            Change::TouchCron { id, timestamp } => if self.cron_jobs.contains_key(id) {
                self.with_cron_run(id, timestamp)
            } else {
                self
            },
            Change::DeleteCron { id } => if self.cron_jobs.contains_key(id) {
                self.without_cron(id)
            } else {
                self
            },
            Change::Remember { caller, key, value } => self.with_memory(caller, key, value),
            Change::Forget { caller, key } => self.without_memory(caller, key),
        }
    }

    /// The state after a series of requests.
    pub open spec fn after_all(self, changes: Seq<Change>) -> StateModel
        decreases changes.len(),
    {
        if changes.len() == 0 {
            self
        } else {
            self.after_all(changes.drop_last()).changed(changes.last())
        }
    }

    /// The state as far as the entries `loaded` show it; the configuration and the ordered lists
    /// are always at hand.
    pub open spec fn part(self, loaded: Footprint) -> StateModel {
        StateModel {
            sessions: self.sessions.restrict(loaded.sessions),
            cron_jobs: self.cron_jobs.restrict(loaded.cron_jobs),
            user_memory: self.user_memory.restrict(loaded.user_memory),
            task_history: self.task_history.restrict(loaded.task_history),
            agent_registry: self.agent_registry.restrict(loaded.agent_registry),
            ..self
        }
    }

    /// The state once `part` is written back over the entries `loaded`.
    pub open spec fn with_part(self, loaded: Footprint, part: StateModel) -> StateModel {
        StateModel {
            sessions: replaced_at(self.sessions, loaded.sessions, part.sessions),
            cron_jobs: replaced_at(self.cron_jobs, loaded.cron_jobs, part.cron_jobs),
            user_memory: replaced_at(self.user_memory, loaded.user_memory, part.user_memory),
            task_history: replaced_at(self.task_history, loaded.task_history, part.task_history),
            agent_registry: replaced_at(
                self.agent_registry,
                loaded.agent_registry,
                part.agent_registry,
            ),
            ..part
        }
    }
}

/// Every change keeps a consistent state consistent.
pub proof fn change_keeps_consistency(state: StateModel, change: Change)
    requires
        state.consistent(),
    ensures
        state.changed(change).consistent(),
{
    match change {
        Change::RegisterAgent { name, .. } => {
            names::push_new_name(state.agent_names, name);
        },
        Change::UnregisterAgent { name } => {
            names::without_members(state.agent_names, name);
        },
        Change::AppendMessage { session_key, .. } => {
            names::push_new_name(state.session_keys, session_key);
        },
        Change::ClearSession { session_key } => {
            names::without_members(state.session_keys, session_key);
        },
        Change::CreateCron { job } => {
            names::push_new_name(state.cron_ids, job.id);
        },
        Change::DeleteCron { id } => {
            names::without_members(state.cron_ids, id);
        },
        _ => {},
    }
}

/// Whatever is asked of a new applet, its state stays consistent: each ordered list has every key
/// of its collection exactly once and no other, and every cron job is stored under its own id.
pub proof fn reachable_states_are_consistent(config: ConfigModel, changes: Seq<Change>)
    ensures
        StateModel::initial(config).after_all(changes).consistent(),
    decreases changes.len(),
{
    if changes.len() > 0 {
        reachable_states_are_consistent(config, changes.drop_last());
        change_keeps_consistency(
            StateModel::initial(config).after_all(changes.drop_last()),
            changes.last(),
        );
    }
}

/// Whatever is asked of a new applet, each collection stays under its own storage identifier.
pub proof fn reachable_states_keep_their_storage(config: ConfigModel, changes: Seq<Change>)
    ensures
        StateModel::initial(config).after_all(changes).storage == StorageIds::allocated(),
    decreases changes.len(),
{
    if changes.len() > 0 {
        reachable_states_keep_their_storage(config, changes.drop_last());
    }
}

/// A change needs no entry beyond its footprint: made on the part of the state that is loaded, and
/// written back, it has the effect that it has on the whole.
pub proof fn change_is_local(state: StateModel, change: Change, loaded: Footprint)
    requires
        change.footprint().within(loaded),
    ensures
        state.changed(change) == state.with_part(loaded, state.part(loaded).changed(change)),
{
    let whole = state.changed(change);
    let part = state.part(loaded).changed(change);
    let merged = state.with_part(loaded, part);
    match change {
        Change::RegisterAgent { name, .. } => {
            assert(set![name].contains(name));
        },
        Change::UnregisterAgent { name } => {
            assert(set![name].contains(name));
        },
        Change::AppendMessage { session_key, .. } => {
            assert(set![session_key].contains(session_key));
        },
        Change::StoreTaskRecord { record } => {
            assert(set![record.session_key].contains(record.session_key));
        },
        Change::ClearSession { session_key } => {
            assert(set![session_key].contains(session_key));
        },
        Change::CreateCron { job } => {
            assert(set![job.id].contains(job.id));
        },
        Change::TouchCron { id, .. } => {
            assert(set![id].contains(id));
        },
        Change::DeleteCron { id } => {
            assert(set![id].contains(id));
        },
        Change::Remember { caller, key, .. } => {
            let k = crate::memory::memory_key(caller, key);
            assert(set![k].contains(k));
        },
        Change::Forget { caller, key } => {
            let k = crate::memory::memory_key(caller, key);
            assert(set![k].contains(k));
        },
        _ => {},
    }
    assert(whole.sessions =~= merged.sessions);
    assert(whole.cron_jobs =~= merged.cron_jobs);
    assert(whole.user_memory =~= merged.user_memory);
    assert(whole.task_history =~= merged.task_history);
    assert(whole.agent_registry =~= merged.agent_registry);
    assert(whole =~= merged);
}

/// Reading needs no entry beyond the one asked for.
pub proof fn reads_are_local(state: StateModel, loaded: Footprint, key: Seq<char>, caller: Seq<char>)
    ensures
        loaded.sessions.contains(key) ==> state.part(loaded).transcript(key) == state.transcript(key),
        loaded.task_history.contains(key) ==> state.part(loaded).task_log(key) == state.task_log(key),
        loaded.cron_jobs.contains(key) ==> state.part(loaded).cron(key) == state.cron(key),
        loaded.agent_registry.contains(key) ==> state.part(loaded).agent(key) == state.agent(key),
        loaded.user_memory.contains(crate::memory::memory_key(caller, key)) ==> state.part(
            loaded,
        ).memory(caller, key) == state.memory(caller, key),
{
}

proof fn filter_map_by_members<A, B>(
    s: Seq<A>,
    f: spec_fn(A) -> Option<B>,
    g: spec_fn(A) -> Option<B>,
)
    requires
        forall|i: int| 0 <= i < s.len() ==> f(#[trigger] s[i]) == g(s[i]),
    ensures
        s.filter_map(f) == s.filter_map(g),
    decreases s.len(),
{
    if s.len() > 0 {
        let init = s.drop_last();
        assert forall|i: int| 0 <= i < init.len() implies f(#[trigger] init[i]) == g(init[i]) by {
            assert(init[i] == s[i]);
        }
        filter_map_by_members(init, f, g);
        assert(f(s[s.len() - 1]) == g(s[s.len() - 1]));
    }
}

/// The lists of agents and of cron jobs need no entry beyond those that they name.
pub proof fn lists_are_local(state: StateModel, loaded: Footprint)
    ensures
        state.agent_names.to_set().subset_of(loaded.agent_registry) ==> state.part(loaded).agents()
            == state.agents(),
        state.cron_ids.to_set().subset_of(loaded.cron_jobs) ==> state.part(loaded).crons()
            == state.crons(),
{
    let part = state.part(loaded);
    if state.agent_names.to_set().subset_of(loaded.agent_registry) {
        assert forall|i: int| 0 <= i < state.agent_names.len() implies part.agent(
            #[trigger] state.agent_names[i],
        ) == state.agent(state.agent_names[i]) by {
            assert(state.agent_names.to_set().contains(state.agent_names[i]));
        }
        filter_map_by_members(
            state.agent_names,
            |name: Seq<char>| part.agent(name),
            |name: Seq<char>| state.agent(name),
        );
    }
    if state.cron_ids.to_set().subset_of(loaded.cron_jobs) {
        assert forall|i: int| 0 <= i < state.cron_ids.len() implies part.cron(
            #[trigger] state.cron_ids[i],
        ) == state.cron(state.cron_ids[i]) by {
            assert(state.cron_ids.to_set().contains(state.cron_ids[i]));
        }
        filter_map_by_members(
            state.cron_ids,
            |id: Seq<char>| part.cron(id),
            |id: Seq<char>| state.cron(id),
        );
    }
}

/// A change has no effect beyond its subject: what belongs to another subject stays as it was.
pub proof fn change_touches_its_subject_only(state: StateModel, change: Change)
    ensures
        !(change is Configure) ==> state.changed(change).config == state.config,
        !(change is RegisterAgent || change is UnregisterAgent) ==> state.changed(
            change,
        ).agent_registry == state.agent_registry && state.changed(change).agent_names
            == state.agent_names,
        !(change is AppendMessage || change is ClearSession) ==> state.changed(change).sessions
            == state.sessions && state.changed(change).session_keys == state.session_keys,
        !(change is StoreTaskRecord || change is ClearSession) ==> state.changed(
            change,
        ).task_history == state.task_history,
        !(change is CreateCron || change is TouchCron || change is DeleteCron) ==> state.changed(
            change,
        ).cron_jobs == state.cron_jobs,
        !(change is CreateCron || change is DeleteCron) ==> state.changed(change).cron_ids
            == state.cron_ids,
        !(change is Remember || change is Forget) ==> state.changed(change).user_memory
            == state.user_memory,
        state.changed(change).storage == state.storage,
{
}

/// Whatever is asked of a new applet, no list repeats a name, each list has the names of its
/// collection and no other, and each cron job is found under the id that it carries.
pub proof fn reachable_lists_agree_with_what_is_stored(
    config: ConfigModel,
    changes: Seq<Change>,
    name: Seq<char>,
)
    ensures
        ({
            let state = StateModel::initial(config).after_all(changes);
            &&& state.session_keys.no_duplicates()
            &&& state.cron_ids.no_duplicates()
            &&& state.agent_names.no_duplicates()
            &&& state.session_keys.contains(name) <==> state.sessions.contains_key(name)
            &&& state.cron_ids.contains(name) <==> state.cron_jobs.contains_key(name)
            &&& state.agent_names.contains(name) <==> state.agent_registry.contains_key(name)
            &&& state.cron_jobs.contains_key(name) ==> state.cron_jobs[name].id == name
        }),
{
    reachable_states_are_consistent(config, changes);
}

/// A change concerns the entry that it names and no other: no change needs a whole collection.
pub proof fn changes_concern_what_they_name(change: Change, key: Seq<char>)
    ensures
        change.footprint().agent_registry.contains(key) <==> match change {
            Change::RegisterAgent { name, .. } => name == key,
            Change::UnregisterAgent { name } => name == key,
            _ => false,
        },
        change.footprint().sessions.contains(key) <==> match change {
            Change::AppendMessage { session_key, .. } => session_key == key,
            Change::ClearSession { session_key } => session_key == key,
            _ => false,
        },
        change.footprint().task_history.contains(key) <==> match change {
            Change::StoreTaskRecord { record } => record.session_key == key,
            Change::ClearSession { session_key } => session_key == key,
            _ => false,
        },
        change.footprint().cron_jobs.contains(key) <==> match change {
            Change::CreateCron { job } => job.id == key,
            Change::TouchCron { id, .. } => id == key,
            Change::DeleteCron { id } => id == key,
            _ => false,
        },
        change.footprint().user_memory.contains(key) <==> match change {
            Change::Remember { caller, key: k, .. } => caller + ":"@ + k == key,
            Change::Forget { caller, key: k } => caller + ":"@ + k == key,
            _ => false,
        },
{
}

/// What is stored under another name than the one a change concerns stays as it was.
pub proof fn other_entries_stay(state: StateModel, change: Change, key: Seq<char>)
    ensures
        ({
            let after = state.changed(change);
            let concerned = change.footprint();
            &&& !concerned.agent_registry.contains(key) ==> after.agent(key) == state.agent(key)
            &&& !concerned.sessions.contains(key) ==> after.transcript(key) == state.transcript(key)
                && after.sessions.contains_key(key) == state.sessions.contains_key(key)
            &&& !concerned.task_history.contains(key) ==> after.task_log(key) == state.task_log(key)
                && after.task_history.contains_key(key) == state.task_history.contains_key(key)
            &&& !concerned.cron_jobs.contains(key) ==> after.cron(key) == state.cron(key)
            &&& !concerned.user_memory.contains(key) ==> after.user_memory.contains_key(key)
                == state.user_memory.contains_key(key) && (state.user_memory.contains_key(key)
                ==> after.user_memory[key] == state.user_memory[key])
        }),
{
}

} // verus!
