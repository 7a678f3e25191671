//! Data that the applet stores and exchanges, each with its mathematical model.

use vstd::prelude::*;

verus! {

/// A moment as the chain's block clock reports it.
pub type Timestamp = u64;

// ---------------------------------------------------------------------------
// Configuration
// ---------------------------------------------------------------------------

/// Application configuration.
#[derive(Debug, PartialEq, Eq)]
pub struct AppletConfig {
    /// Text shown to the model as the applet's own instructions.
    pub system_prompt: String,
    /// Model used where a request names none.
    pub default_model: String,
    /// How many past turns a new message carries along.
    pub max_history_turns: u32,
}

/// Model of [`AppletConfig`].
#[verifier::ext_equal]
pub struct ConfigModel {
    pub system_prompt: Seq<char>,
    pub default_model: Seq<char>,
    pub max_history_turns: u32,
}

impl DeepView for AppletConfig {
    type V = ConfigModel;

    open spec fn deep_view(&self) -> ConfigModel {
        ConfigModel {
            system_prompt: self.system_prompt@,
            default_model: self.default_model@,
            max_history_turns: self.max_history_turns,
        }
    }
}

impl Clone for AppletConfig {
    fn clone(&self) -> (r: Self)
        ensures
            r == *self,
    {
        AppletConfig {
            system_prompt: self.system_prompt.clone(),
            default_model: self.default_model.clone(),
            max_history_turns: self.max_history_turns,
        }
    }
}

// ---------------------------------------------------------------------------
// Conversations
// ---------------------------------------------------------------------------

/// Who speaks in a transcript.
#[derive(Debug, Clone, Copy, PartialEq, Eq, Structural)]
pub enum ConversationRole {
    User,
    Assistant,
    System,
}

/// One message of a transcript.
#[derive(Debug, PartialEq, Eq)]
pub struct ConversationMessage {
    pub role: ConversationRole,
    pub content: String,
    pub timestamp: Timestamp,
}

/// Model of [`ConversationMessage`].
#[verifier::ext_equal]
pub struct MessageModel {
    pub role: ConversationRole,
    pub content: Seq<char>,
    pub timestamp: Timestamp,
}

impl DeepView for ConversationMessage {
    type V = MessageModel;

    open spec fn deep_view(&self) -> MessageModel {
        MessageModel { role: self.role, content: self.content@, timestamp: self.timestamp }
    }
}

impl Clone for ConversationMessage {
    fn clone(&self) -> (r: Self)
        ensures
            r == *self,
    {
        ConversationMessage {
            role: self.role,
            content: self.content.clone(),
            timestamp: self.timestamp,
        }
    }
}

/// The outcome of one agent task, as kept in the task log of its session.
#[derive(Debug, PartialEq, Eq)]
pub struct TaskRecord {
    pub task_id: String,
    pub session_key: String,
    pub description: String,
    pub response: String,
    pub timestamp: Timestamp,
}

/// Model of [`TaskRecord`].
#[verifier::ext_equal]
pub struct TaskRecordModel {
    pub task_id: Seq<char>,
    pub session_key: Seq<char>,
    pub description: Seq<char>,
    pub response: Seq<char>,
    pub timestamp: Timestamp,
}

impl DeepView for TaskRecord {
    type V = TaskRecordModel;

    open spec fn deep_view(&self) -> TaskRecordModel {
        TaskRecordModel {
            task_id: self.task_id@,
            session_key: self.session_key@,
            description: self.description@,
            response: self.response@,
            timestamp: self.timestamp,
        }
    }
}

impl Clone for TaskRecord {
    fn clone(&self) -> (r: Self)
        ensures
            r == *self,
    {
        TaskRecord {
            task_id: self.task_id.clone(),
            session_key: self.session_key.clone(),
            description: self.description.clone(),
            response: self.response.clone(),
            timestamp: self.timestamp,
        }
    }
}

// ---------------------------------------------------------------------------
// Cron jobs
// ---------------------------------------------------------------------------

/// A scheduled task.
#[derive(Debug, PartialEq, Eq)]
pub struct CronJob {
    pub id: String,
    pub description: String,
    pub mcp_contract_address: String,
    pub every_ms: u64,
    pub last_run_timestamp: Option<Timestamp>,
    pub created_at: Timestamp,
}

/// Model of [`CronJob`].
#[verifier::ext_equal]
pub struct CronModel {
    pub id: Seq<char>,
    pub description: Seq<char>,
    pub mcp_contract_address: Seq<char>,
    pub every_ms: u64,
    pub last_run_timestamp: Option<Timestamp>,
    pub created_at: Timestamp,
}

impl DeepView for CronJob {
    type V = CronModel;

    open spec fn deep_view(&self) -> CronModel {
        CronModel {
            id: self.id@,
            description: self.description@,
            mcp_contract_address: self.mcp_contract_address@,
            every_ms: self.every_ms,
            last_run_timestamp: self.last_run_timestamp,
            created_at: self.created_at,
        }
    }
}

impl Clone for CronJob {
    fn clone(&self) -> (r: Self)
        ensures
            r == *self,
    {
        CronJob {
            id: self.id.clone(),
            description: self.description.clone(),
            mcp_contract_address: self.mcp_contract_address.clone(),
            every_ms: self.every_ms,
            last_run_timestamp: self.last_run_timestamp,
            created_at: self.created_at,
        }
    }
}

// ---------------------------------------------------------------------------
// Agents and their calls
// ---------------------------------------------------------------------------

/// A registered agent.
#[derive(Debug, PartialEq, Eq)]
pub struct AgentInfo {
    pub name: String,
    pub contract_address: String,
}

/// Model of [`AgentInfo`].
#[verifier::ext_equal]
pub struct AgentModel {
    pub name: Seq<char>,
    pub contract_address: Seq<char>,
}

impl DeepView for AgentInfo {
    type V = AgentModel;

    open spec fn deep_view(&self) -> AgentModel {
        AgentModel { name: self.name@, contract_address: self.contract_address@ }
    }
}

/// One task together with the contract whose tools it may use.
#[derive(Debug, PartialEq, Eq)]
pub struct AgentTask {
    pub task_id: String,
    pub description: String,
    pub mcp_contract_address: String,
}

/// Model of [`AgentTask`].
#[verifier::ext_equal]
pub struct AgentTaskModel {
    pub task_id: Seq<char>,
    pub description: Seq<char>,
    pub mcp_contract_address: Seq<char>,
}

impl DeepView for AgentTask {
    type V = AgentTaskModel;

    open spec fn deep_view(&self) -> AgentTaskModel {
        AgentTaskModel {
            task_id: self.task_id@,
            description: self.description@,
            mcp_contract_address: self.mcp_contract_address@,
        }
    }
}

impl Clone for AgentTask {
    fn clone(&self) -> (r: Self)
        ensures
            r == *self,
    {
        AgentTask {
            task_id: self.task_id.clone(),
            description: self.description.clone(),
            mcp_contract_address: self.mcp_contract_address.clone(),
        }
    }
}

/// On whose behalf, and with which model, agent work runs.
#[derive(Debug, PartialEq, Eq)]
pub struct Engagement {
    pub caller: String,
    pub model: String,
    pub model_key: Option<String>,
}

/// Model of [`Engagement`].
#[verifier::ext_equal]
pub struct EngagementModel {
    pub caller: Seq<char>,
    pub model: Seq<char>,
    pub model_key: Option<Seq<char>>,
}

impl DeepView for Engagement {
    type V = EngagementModel;

    open spec fn deep_view(&self) -> EngagementModel {
        EngagementModel {
            caller: self.caller@,
            model: self.model@,
            model_key: self.model_key.deep_view(),
        }
    }
}

impl Clone for Engagement {
    fn clone(&self) -> (r: Self)
        ensures
            r == *self,
    {
        Engagement {
            caller: self.caller.clone(),
            model: self.model.clone(),
            model_key: match &self.model_key {
                Some(key) => Some(key.clone()),
                None => None,
            },
        }
    }
}

/// A single task to hand to the agent driver.
#[derive(Debug, PartialEq, Eq)]
pub struct AgentCall {
    pub engagement: Engagement,
    pub task: AgentTask,
}

impl Clone for AgentCall {
    fn clone(&self) -> (r: Self)
        ensures
            r == *self,
    {
        AgentCall { engagement: self.engagement.clone(), task: self.task.clone() }
    }
}

/// The reply to a message.
#[derive(Debug, PartialEq, Eq)]
pub struct AgentResponse {
    pub reply: String,
    pub task_id: String,
    pub session_key: String,
    pub model_used: String,
}

// ---------------------------------------------------------------------------
// Workflows and pipelines
// ---------------------------------------------------------------------------

/// A task as the author of a workflow or pipeline writes it; its id may be left out.
#[derive(Debug, PartialEq, Eq)]
pub struct WorkflowTask {
    pub task_id: Option<String>,
    pub description: String,
    pub mcp_contract_address: String,
}

/// Model of [`WorkflowTask`].
#[verifier::ext_equal]
pub struct WorkflowTaskModel {
    pub task_id: Option<Seq<char>>,
    pub description: Seq<char>,
    pub mcp_contract_address: Seq<char>,
}

impl DeepView for WorkflowTask {
    type V = WorkflowTaskModel;

    open spec fn deep_view(&self) -> WorkflowTaskModel {
        WorkflowTaskModel {
            task_id: self.task_id.deep_view(),
            description: self.description@,
            mcp_contract_address: self.mcp_contract_address@,
        }
    }
}

/// A chain of tasks to run one after the other.
#[derive(Debug, PartialEq, Eq)]
pub struct ChainCall {
    pub engagement: Engagement,
    pub tasks: Vec<AgentTask>,
}

/// How a chain broke off.
#[derive(Debug, PartialEq, Eq)]
pub struct ChainFailure {
    pub err_msg: String,
    pub index: u64,
    pub previous_result: Option<String>,
}

/// What a workflow yields.
#[derive(Debug, PartialEq, Eq)]
pub enum WorkflowResult {
    Completed(String),
    Failed { error: String, resume_index: u64, previous_result: Option<String> },
}

/// When an edge of a pipeline is followed.
#[derive(Debug, PartialEq, Eq)]
pub enum PipelineCondition {
    AlwaysTrue,
    AlwaysFalse,
    Equals(String),
    NotEquals(String),
}

/// Model of [`PipelineCondition`].
#[verifier::ext_equal]
pub enum ConditionModel {
    AlwaysTrue,
    AlwaysFalse,
    Equals(Seq<char>),
    NotEquals(Seq<char>),
}

impl DeepView for PipelineCondition {
    type V = ConditionModel;

    open spec fn deep_view(&self) -> ConditionModel {
        match self {
            PipelineCondition::AlwaysTrue => ConditionModel::AlwaysTrue,
            PipelineCondition::AlwaysFalse => ConditionModel::AlwaysFalse,
            PipelineCondition::Equals(v) => ConditionModel::Equals(v@),
            PipelineCondition::NotEquals(v) => ConditionModel::NotEquals(v@),
        }
    }
}

impl Clone for PipelineCondition {
    fn clone(&self) -> (r: Self)
        ensures
            r == *self,
    {
        match self {
            PipelineCondition::AlwaysTrue => PipelineCondition::AlwaysTrue,
            PipelineCondition::AlwaysFalse => PipelineCondition::AlwaysFalse,
            PipelineCondition::Equals(v) => PipelineCondition::Equals(v.clone()),
            PipelineCondition::NotEquals(v) => PipelineCondition::NotEquals(v.clone()),
        }
    }
}

/// An edge of a pipeline.
#[derive(Debug, PartialEq, Eq)]
pub struct PipelineEdge {
    pub from_task_id: String,
    pub to_task_id: String,
    pub condition: PipelineCondition,
}

/// Model of [`PipelineEdge`].
#[verifier::ext_equal]
pub struct EdgeModel {
    pub from_task_id: Seq<char>,
    pub to_task_id: Seq<char>,
    pub condition: ConditionModel,
}

impl DeepView for PipelineEdge {
    type V = EdgeModel;

    open spec fn deep_view(&self) -> EdgeModel {
        EdgeModel {
            from_task_id: self.from_task_id@,
            to_task_id: self.to_task_id@,
            condition: self.condition.deep_view(),
        }
    }
}

impl Clone for PipelineEdge {
    fn clone(&self) -> (r: Self)
        ensures
            r == *self,
    {
        PipelineEdge {
            from_task_id: self.from_task_id.clone(),
            to_task_id: self.to_task_id.clone(),
            condition: self.condition.clone(),
        }
    }
}

/// A directed graph of tasks.
#[derive(Debug, PartialEq, Eq)]
pub struct PipelineSpec {
    pub name: String,
    pub description: String,
    pub is_repeating: bool,
    pub tasks: Vec<WorkflowTask>,
    pub root_task_id: String,
    pub edges: Vec<PipelineEdge>,
}

// ---------------------------------------------------------------------------
// Status
// ---------------------------------------------------------------------------

/// A summary of the applet.
#[derive(Debug, PartialEq, Eq)]
pub struct AppletStatus {
    pub contract_id: String,
    pub active_sessions: u64,
    pub cron_jobs_count: u64,
    pub registered_agents_count: u64,
    pub default_model: String,
}

// ---------------------------------------------------------------------------
// HTTP
// ---------------------------------------------------------------------------

/// Method of an HTTP request.
#[derive(Debug, Clone, Copy, PartialEq, Eq, Structural)]
pub enum HttpMethod {
    Get,
    Post,
    Put,
    Delete,
    Patch,
}

/// An HTTP request to send.
#[derive(Debug, PartialEq, Eq)]
pub struct HttpRequest {
    pub url: String,
    pub method: HttpMethod,
    pub body: Option<String>,
}

/// What an HTTP server answered.
#[derive(Debug, PartialEq, Eq)]
pub struct HttpResponse {
    pub status: u16,
    pub text: String,
}

// ---------------------------------------------------------------------------
// What the models show
// ---------------------------------------------------------------------------

/// The model of a configuration shows every part of it as it is.
pub proof fn configuration_is_shown_whole(config: AppletConfig)
    ensures
        config.deep_view().system_prompt == config.system_prompt@,
        config.deep_view().default_model == config.default_model@,
        config.deep_view().max_history_turns == config.max_history_turns,
{
}

/// The models of a message and of a task record show every part of them as it is.
pub proof fn conversation_is_shown_whole(message: ConversationMessage, record: TaskRecord)
    ensures
        message.deep_view().role == message.role,
        message.deep_view().content == message.content@,
        message.deep_view().timestamp == message.timestamp,
        record.deep_view().task_id == record.task_id@,
        record.deep_view().session_key == record.session_key@,
        record.deep_view().description == record.description@,
        record.deep_view().response == record.response@,
        record.deep_view().timestamp == record.timestamp,
{
}

/// The models of a cron job and of an agent show every part of them as it is.
pub proof fn registrations_are_shown_whole(job: CronJob, agent: AgentInfo)
    ensures
        job.deep_view().id == job.id@,
        job.deep_view().description == job.description@,
        job.deep_view().mcp_contract_address == job.mcp_contract_address@,
        job.deep_view().every_ms == job.every_ms,
        job.deep_view().last_run_timestamp == job.last_run_timestamp,
        job.deep_view().created_at == job.created_at,
        agent.deep_view().name == agent.name@,
        agent.deep_view().contract_address == agent.contract_address@,
{
}

/// The models of a task, of a task as its author wrote it, and of an engagement show every part of
/// them as it is.
pub proof fn tasks_are_shown_whole(task: AgentTask, written: WorkflowTask, engagement: Engagement)
    ensures
        task.deep_view().task_id == task.task_id@,
        task.deep_view().description == task.description@,
        task.deep_view().mcp_contract_address == task.mcp_contract_address@,
        written.task_id matches Some(id) ==> written.deep_view().task_id == Some(id@),
        written.task_id is None ==> written.deep_view().task_id is None,
        written.deep_view().description == written.description@,
        written.deep_view().mcp_contract_address == written.mcp_contract_address@,
        engagement.deep_view().caller == engagement.caller@,
        engagement.deep_view().model == engagement.model@,
        engagement.model_key matches Some(key) ==> engagement.deep_view().model_key == Some(key@),
        engagement.model_key is None ==> engagement.deep_view().model_key is None,
{
}

/// The model of an edge shows its ends and its condition as they are.
pub proof fn edges_are_shown_whole(edge: PipelineEdge)
    ensures
        edge.deep_view().from_task_id == edge.from_task_id@,
        edge.deep_view().to_task_id == edge.to_task_id@,
        edge.condition is AlwaysTrue ==> edge.deep_view().condition is AlwaysTrue,
        edge.condition is AlwaysFalse ==> edge.deep_view().condition is AlwaysFalse,
        edge.condition matches PipelineCondition::Equals(v) ==> edge.deep_view().condition
            == ConditionModel::Equals(v@),
        edge.condition matches PipelineCondition::NotEquals(v) ==> edge.deep_view().condition
            == ConditionModel::NotEquals(v@),
{
}

} // verus!
