//! The applet's persistent state and its mathematical model.

use crate::changes::Change;
use crate::store::{Collection, KeyedStore, StorageIds};
use crate::types::{
    AppletConfig, AppletStatus, ConfigModel, ConversationMessage, CronJob, CronModel, Engagement,
    EngagementModel, MessageModel, TaskRecord, TaskRecordModel,
};
use vstd::prelude::*;

verus! {

/// Persistent state of the applet.
pub struct OpenClawState {
    /// Application configuration.
    pub config: AppletConfig,
    /// Conversation transcripts keyed by session key.
    pub sessions: KeyedStore<Vec<ConversationMessage>>,
    /// Session keys in the order in which the sessions began.
    pub session_keys: Vec<String>,
    /// Cron job definitions keyed by id.
    pub cron_jobs: KeyedStore<CronJob>,
    /// Cron ids in the order of creation.
    pub cron_ids: Vec<String>,
    /// Per-caller memory, keyed by `{caller}:{key}`.
    pub user_memory: KeyedStore<String>,
    /// Task logs keyed by session key.
    pub task_history: KeyedStore<Vec<TaskRecord>>,
    /// Contract addresses of the named agents.
    pub agent_registry: KeyedStore<String>,
    /// Agent names in the order of registration.
    pub agent_names: Vec<String>,
}

/// Model of [`OpenClawState`].
#[verifier::ext_equal]
pub struct StateModel {
    pub config: ConfigModel,
    pub sessions: Map<Seq<char>, Seq<MessageModel>>,
    pub session_keys: Seq<Seq<char>>,
    pub cron_jobs: Map<Seq<char>, CronModel>,
    pub cron_ids: Seq<Seq<char>>,
    pub user_memory: Map<Seq<char>, Seq<char>>,
    pub task_history: Map<Seq<char>, Seq<TaskRecordModel>>,
    pub agent_registry: Map<Seq<char>, Seq<char>>,
    pub agent_names: Seq<Seq<char>>,
    /// Where the collections are stored.
    pub storage: StorageIds,
}

impl View for OpenClawState {
    type V = StateModel;

    open spec fn view(&self) -> StateModel {
        StateModel {
            config: self.config.deep_view(),
            sessions: self.sessions@,
            session_keys: self.session_keys.deep_view(),
            cron_jobs: self.cron_jobs@,
            cron_ids: self.cron_ids.deep_view(),
            user_memory: self.user_memory@,
            task_history: self.task_history@,
            agent_registry: self.agent_registry@,
            agent_names: self.agent_names.deep_view(),
            storage: StorageIds {
                sessions: self.sessions.id(),
                cron_jobs: self.cron_jobs.id(),
                user_memory: self.user_memory.id(),
                task_history: self.task_history.id(),
                agent_registry: self.agent_registry.id(),
            },
        }
    }
}

/// `names` lists each key of `map` exactly once, and nothing else.
pub open spec fn indexes<V>(names: Seq<Seq<char>>, map: Map<Seq<char>, V>) -> bool {
    &&& names.no_duplicates()
    &&& forall|name: Seq<char>| #[trigger] names.contains(name) <==> map.contains_key(name)
}

impl StateModel {
    /// The state in which nothing is stored, each collection with its own identifier.
    pub open spec fn initial(config: ConfigModel) -> StateModel {
        StateModel {
            config,
            sessions: Map::empty(),
            session_keys: Seq::empty(),
            cron_jobs: Map::empty(),
            cron_ids: Seq::empty(),
            user_memory: Map::empty(),
            task_history: Map::empty(),
            agent_registry: Map::empty(),
            agent_names: Seq::empty(),
            storage: StorageIds::allocated(),
        }
    }

    /// The ordered lists agree with the collections they order, and every cron job is stored
    /// under its own id.
    pub open spec fn consistent(self) -> bool {
        &&& indexes(self.session_keys, self.sessions)
        &&& indexes(self.cron_ids, self.cron_jobs)
        &&& indexes(self.agent_names, self.agent_registry)
        &&& forall|id: Seq<char>| #[trigger]
            self.cron_jobs.contains_key(id) ==> self.cron_jobs[id].id == id
    }

    /// The model that a request naming `model` runs on.
    pub open spec fn chosen_model(self, model: Option<Seq<char>>) -> Seq<char> {
        match model {
            Some(name) => name,
            None => self.config.default_model,
        }
    }

    /// On whose behalf and with which model a request runs.
    pub open spec fn engagement(
        self,
        caller: Seq<char>,
        model: Option<Seq<char>>,
        model_key: Option<Seq<char>>,
    ) -> EngagementModel {
        EngagementModel { caller, model: self.chosen_model(model), model_key }
    }
}

impl OpenClawState {
    /// A fresh applet with the configuration `defaults`, in which `system_prompt`, where given,
    /// takes the place of the prompt.
    pub fn new(system_prompt: Option<String>, defaults: AppletConfig) -> (r: Result<Self, String>)
        ensures
            r is Ok,
            r->Ok_0@ == StateModel::initial(
                ConfigModel {
                    system_prompt: match system_prompt {
                        Some(prompt) => prompt@,
                        None => defaults.system_prompt@,
                    },
                    ..defaults.deep_view()
                },
            ),
            r->Ok_0@.consistent(),
            match system_prompt {
                Some(prompt) => r->Ok_0.config.system_prompt == prompt,
                None => r->Ok_0.config.system_prompt == defaults.system_prompt,
            },
            r->Ok_0.config.default_model == defaults.default_model,
            r->Ok_0.config.max_history_turns == defaults.max_history_turns,
            r->Ok_0.session_keys@.len() == 0,
            r->Ok_0.cron_ids@.len() == 0,
            r->Ok_0.agent_names@.len() == 0,
            r->Ok_0.sessions@ == Map::<Seq<char>, Seq<MessageModel>>::empty(),
            r->Ok_0.cron_jobs@ == Map::<Seq<char>, CronModel>::empty(),
            r->Ok_0.user_memory@ == Map::<Seq<char>, Seq<char>>::empty(),
            r->Ok_0.task_history@ == Map::<Seq<char>, Seq<TaskRecordModel>>::empty(),
            r->Ok_0.agent_registry@ == Map::<Seq<char>, Seq<char>>::empty(),
            r->Ok_0.sessions.id() == Collection::Sessions.id(),
            r->Ok_0.cron_jobs.id() == Collection::CronJobs.id(),
            r->Ok_0.user_memory.id() == Collection::UserMemory.id(),
            r->Ok_0.task_history.id() == Collection::TaskHistory.id(),
            r->Ok_0.agent_registry.id() == Collection::AgentRegistry.id(),
    {
        let mut config = defaults;
        if let Some(prompt) = system_prompt {
            config.system_prompt = prompt;
        }
        let state = OpenClawState {
            config,
            sessions: KeyedStore::new(Collection::Sessions),
            session_keys: Vec::new(),
            cron_jobs: KeyedStore::new(Collection::CronJobs),
            cron_ids: Vec::new(),
            user_memory: KeyedStore::new(Collection::UserMemory),
            task_history: KeyedStore::new(Collection::TaskHistory),
            agent_registry: KeyedStore::new(Collection::AgentRegistry),
            agent_names: Vec::new(),
        };
        assert(state@ =~~= StateModel::initial(state.config.deep_view()));
        Ok(state)
    }

    /// Replaces the configuration.
    pub fn configure(&mut self, config: AppletConfig) -> (r: Result<(), String>)
        ensures
            r is Ok,
            final(self)@ == (StateModel { config: config.deep_view(), ..old(self)@ }),
            final(self).config == config,
            final(self)@ == old(self)@.changed(
                Change::Configure { config: config.deep_view() },
            ),
            old(self)@.consistent() ==> final(self)@.consistent(),
    {
        self.config = config;
        Ok(())
    }

    /// The system prompt.
    pub fn prompts(&self) -> (r: String)
        ensures
            r@ == self@.config.system_prompt,
            r@ == self.config.system_prompt@,
    {
        self.config.system_prompt.clone()
    }

    /// The tool schema that the applet serves: `schema`, as it stands, whatever the state. What the
    /// schema lists is up to whoever sets the applet up.
    pub fn tools(&self, schema: &String) -> (r: String)
        ensures
            r@ == schema@,
    {
        schema.clone()
    }

    /// A summary of what is stored.
    pub fn status(&self, contract_id: String) -> (r: Result<AppletStatus, String>)
        ensures
            r is Ok,
            r->Ok_0.contract_id@ == contract_id@,
            r->Ok_0.active_sessions == self@.session_keys.len(),
            r->Ok_0.cron_jobs_count == self@.cron_ids.len(),
            r->Ok_0.registered_agents_count == self@.agent_names.len(),
            r->Ok_0.default_model@ == self@.config.default_model,
            r->Ok_0.active_sessions == self.session_keys@.len(),
            r->Ok_0.cron_jobs_count == self.cron_ids@.len(),
            r->Ok_0.registered_agents_count == self.agent_names@.len(),
            r->Ok_0.default_model@ == self.config.default_model@,
    {
        Ok(
            AppletStatus {
                contract_id,
                active_sessions: self.session_keys.len() as u64,
                cron_jobs_count: self.cron_ids.len() as u64,
                registered_agents_count: self.agent_names.len() as u64,
                default_model: self.config.default_model.clone(),
            },
        )
    }

    /// On whose behalf and with which model a request runs: the model named, or the default.
    pub(crate) fn engage(
        &self,
        caller: String,
        model: Option<String>,
        model_key: Option<String>,
    ) -> (r: Engagement)
        ensures
            r.deep_view() == self@.engagement(caller@, model.deep_view(), model_key.deep_view()),
            r.caller == caller,
            match model {
                Some(name) => r.model == name,
                None => r.model@ == self.config.default_model@,
            },
            r.model_key == model_key,
    {
        let model = match model {
            Some(name) => name,
            None => self.config.default_model.clone(),
        };
        Engagement { caller, model, model_key }
    }
}

/// The model of a state shows every part of it as it is.
pub proof fn state_is_shown_whole(state: OpenClawState)
    ensures
        state@.config == state.config.deep_view(),
        state@.sessions == state.sessions@,
        state@.session_keys == state.session_keys.deep_view(),
        state@.cron_jobs == state.cron_jobs@,
        state@.cron_ids == state.cron_ids.deep_view(),
        state@.user_memory == state.user_memory@,
        state@.task_history == state.task_history@,
        state@.agent_registry == state.agent_registry@,
        state@.agent_names == state.agent_names.deep_view(),
        state@.storage.sessions == state.sessions.id(),
        state@.storage.cron_jobs == state.cron_jobs.id(),
        state@.storage.user_memory == state.user_memory.id(),
        state@.storage.task_history == state.task_history.id(),
        state@.storage.agent_registry == state.agent_registry.id(),
{
}

/// A request that names a model runs on exactly that model, and one that names none on the
/// configured one; who asks and with which key is handed on as it is.
pub proof fn requests_run_on_the_model_named(
    state: StateModel,
    caller: Seq<char>,
    named: Seq<char>,
    model_key: Option<Seq<char>>,
)
    ensures
        state.engagement(caller, Some(named), model_key).model == named,
        state.engagement(caller, None, model_key).model == state.config.default_model,
        forall|model: Option<Seq<char>>|
            (#[trigger] state.engagement(caller, model, model_key)).caller == caller
                && state.engagement(caller, model, model_key).model_key == model_key,
{
}

/// Requests that differ in the model they name run on different models, whatever else they say.
pub proof fn different_models_are_told_apart(
    state: StateModel,
    caller: Seq<char>,
    a: Seq<char>,
    b: Seq<char>,
    model_key: Option<Seq<char>>,
)
    requires
        a != b,
    ensures
        state.engagement(caller, Some(a), model_key) != state.engagement(
            caller,
            Some(b),
            model_key,
        ),
{
}

/// A consistent state, part by part: no list repeats a name, each list and its collection have the
/// same names, and a cron job is found under the id that it carries.
pub proof fn consistency_in_full(state: StateModel)
    ensures
        state.consistent() <==> {
            &&& state.session_keys.no_duplicates()
            &&& state.cron_ids.no_duplicates()
            &&& state.agent_names.no_duplicates()
            &&& forall|k: Seq<char>| #[trigger]
                state.session_keys.contains(k) <==> state.sessions.contains_key(k)
            &&& forall|k: Seq<char>| #[trigger]
                state.cron_ids.contains(k) <==> state.cron_jobs.contains_key(k)
            &&& forall|k: Seq<char>| #[trigger]
                state.agent_names.contains(k) <==> state.agent_registry.contains_key(k)
            &&& forall|k: Seq<char>| #[trigger]
                state.cron_jobs.contains_key(k) ==> state.cron_jobs[k].id == k
        },
{
}

} // verus!
