//! Pipelines: directed graphs of tasks, built step by step and then run.

use crate::state::OpenClawState;
use crate::text;
use crate::types::{
    AgentTask, AgentTaskModel, ConditionModel, EdgeModel, Engagement, EngagementModel,
    PipelineCondition, PipelineEdge, PipelineSpec, WorkflowTaskModel,
};
use crate::workflow;
use vstd::prelude::*;

verus! {

/// One step of building and running a pipeline.
#[derive(Debug, PartialEq, Eq)]
pub enum PipelineStep {
    AddTask(AgentTask),
    SetRoot(String),
    AddEdge(PipelineEdge),
    Start,
    Run(Engagement),
}

/// Model of [`PipelineStep`].
#[verifier::ext_equal]
pub enum StepModel {
    AddTask(AgentTaskModel),
    SetRoot(Seq<char>),
    AddEdge(EdgeModel),
    Start,
    Run(EngagementModel),
}

impl DeepView for PipelineStep {
    type V = StepModel;

    open spec fn deep_view(&self) -> StepModel {
        match self {
            PipelineStep::AddTask(task) => StepModel::AddTask(task.deep_view()),
            PipelineStep::SetRoot(id) => StepModel::SetRoot(id@),
            PipelineStep::AddEdge(edge) => StepModel::AddEdge(edge.deep_view()),
            PipelineStep::Start => StepModel::Start,
            PipelineStep::Run(engagement) => StepModel::Run(engagement.deep_view()),
        }
    }
}

impl Clone for PipelineStep {
    fn clone(&self) -> (r: Self)
        ensures
            r == *self,
    {
        match self {
            PipelineStep::AddTask(task) => PipelineStep::AddTask(task.clone()),
            PipelineStep::SetRoot(id) => PipelineStep::SetRoot(id.clone()),
            PipelineStep::AddEdge(edge) => PipelineStep::AddEdge(edge.clone()),
            PipelineStep::Start => PipelineStep::Start,
            PipelineStep::Run(engagement) => PipelineStep::Run(engagement.clone()),
        }
    }
}

impl StepModel {
    /// Adding a task and starting always succeed; the other steps may be refused.
    pub open spec fn may_fail(self) -> bool {
        self is SetRoot || self is AddEdge || self is Run
    }

    /// How the message about a refused step begins.
    pub open spec fn failure_heading(self) -> Seq<char> {
        match self {
            StepModel::SetRoot(_) => "Invalid root task: "@,
            StepModel::AddEdge(_) => "Invalid pipeline edge: "@,
            _ => "Pipeline execution failed: "@,
        }
    }
}

/// A pipeline on its way: the steps to take, the place reached, and the result once there is one.
pub struct PipelineRun {
    name: String,
    description: String,
    is_repeating: bool,
    steps: Vec<PipelineStep>,
    position: usize,
    outcome: Option<Result<String, String>>,
}

/// Model of [`PipelineRun`].
#[verifier::ext_equal]
pub struct RunModel {
    pub name: Seq<char>,
    pub description: Seq<char>,
    pub is_repeating: bool,
    pub steps: Seq<StepModel>,
    pub position: int,
    pub outcome: Option<Result<Seq<char>, Seq<char>>>,
}

/// A reply or result as plain text.
pub open spec fn reply_text(reply: Result<String, String>) -> Result<Seq<char>, Seq<char>> {
    match reply {
        Ok(text) => Ok(text@),
        Err(e) => Err(e@),
    }
}

impl View for PipelineRun {
    type V = RunModel;

    closed spec fn view(&self) -> RunModel {
        RunModel {
            name: self.name@,
            description: self.description@,
            is_repeating: self.is_repeating,
            steps: self.steps.deep_view(),
            position: self.position as int,
            outcome: match self.outcome {
                Some(result) => Some(reply_text(result)),
                None => None,
            },
        }
    }
}

impl RunModel {
    /// The step to take now; none once there is a result.
    pub open spec fn pending(self) -> Option<StepModel> {
        if self.outcome is None && 0 <= self.position < self.steps.len() {
            Some(self.steps[self.position])
        } else {
            None
        }
    }

    /// The run after the pending step was answered with `reply`: a refusal ends it under the
    /// step's heading, success of the last step ends it with that step's text, any other success
    /// leads to the next step.
    pub open spec fn after(self, reply: Result<Seq<char>, Seq<char>>) -> RunModel {
        match reply {
            Err(e) => RunModel {
                outcome: Some(Err(self.steps[self.position].failure_heading() + e)),
                ..self
            },
            Ok(text) => if self.position + 1 == self.steps.len() {
                RunModel { outcome: Some(Ok(text)), ..self }
            } else {
                RunModel { position: self.position + 1, ..self }
            },
        }
    }
}

/// The steps of a pipeline: all tasks, the root, all edges, the start, the run.
pub open spec fn pipeline_steps(
    tasks: Seq<WorkflowTaskModel>,
    root: Seq<char>,
    edges: Seq<EdgeModel>,
    engagement: EngagementModel,
) -> Seq<StepModel> {
    workflow::planned_tasks(tasks).map_values(|task: AgentTaskModel| StepModel::AddTask(task))
        + seq![StepModel::SetRoot(root)] + edges.map_values(
        |edge: EdgeModel| StepModel::AddEdge(edge),
    ) + seq![StepModel::Start, StepModel::Run(engagement)]
}

impl OpenClawState {
    /// Prepares a pipeline run from `spec`.
    pub fn run_pipeline(
        &self,
        spec: PipelineSpec,
        model: Option<String>,
        model_key: Option<String>,
        caller: String,
    ) -> (r: PipelineRun)
        ensures
            r@ == (RunModel {
                name: spec.name@,
                description: spec.description@,
                is_repeating: spec.is_repeating,
                steps: pipeline_steps(
                    spec.tasks.deep_view(),
                    spec.root_task_id@,
                    spec.edges.deep_view(),
                    self@.engagement(caller@, model.deep_view(), model_key.deep_view()),
                ),
                position: 0,
                outcome: None,
            }),
            r@.steps.len() == spec.tasks.len() + spec.edges.len() + 3,
            forall|k: int|
                0 <= k < spec.tasks.len() ==> (#[trigger] r@.steps[k] matches StepModel::AddTask(
                    task,
                ) && task.description == spec.tasks[k].description@ && task.mcp_contract_address
                    == spec.tasks[k].mcp_contract_address@ && task.task_id
                    == match spec.tasks[k].task_id {
                    Some(id) => id@,
                    None => "task_"@ + text::decimal(k as nat),
                }),
            r@.steps[spec.tasks.len() as int] == StepModel::SetRoot(spec.root_task_id@),
            forall|k: int|
                spec.tasks.len() < k <= spec.tasks.len() + spec.edges.len() ==> (
                #[trigger] r@.steps[k] matches StepModel::AddEdge(edge) && edge.from_task_id
                    == spec.edges[k - spec.tasks.len() - 1].from_task_id@ && edge.to_task_id
                    == spec.edges[k - spec.tasks.len() - 1].to_task_id@ && edge.condition
                    == match spec.edges[k - spec.tasks.len() - 1].condition {
                    PipelineCondition::AlwaysTrue => ConditionModel::AlwaysTrue,
                    PipelineCondition::AlwaysFalse => ConditionModel::AlwaysFalse,
                    PipelineCondition::Equals(v) => ConditionModel::Equals(v@),
                    PipelineCondition::NotEquals(v) => ConditionModel::NotEquals(v@),
                }),
            r@.steps[spec.tasks.len() + spec.edges.len() + 1] == StepModel::Start,
            r@.steps[spec.tasks.len() + spec.edges.len() + 2] matches StepModel::Run(engagement)
                && engagement.caller == caller@ && engagement.model == match model {
                Some(name) => name@,
                None => self.config.default_model@,
            } && engagement.model_key == match model_key {
                Some(key) => Some(key@),
                None => None,
            },
    {
        let engagement = self.engage(caller, model, model_key);
        let tasks = workflow::plan_tasks(&spec.tasks);
        let ghost task_steps = tasks.deep_view().map_values(
            |task: AgentTaskModel| StepModel::AddTask(task),
        );
        let ghost edge_steps = spec.edges.deep_view().map_values(
            |edge: EdgeModel| StepModel::AddEdge(edge),
        );
        let mut steps: Vec<PipelineStep> = Vec::new();
        let mut i: usize = 0;
        while i < tasks.len()
            invariant
                i <= tasks.len(),
                task_steps == tasks.deep_view().map_values(
                    |task: AgentTaskModel| StepModel::AddTask(task),
                ),
                steps.deep_view() =~= task_steps.take(i as int),
            decreases tasks.len() - i,
        {
            let ghost before = steps.deep_view();
            steps.push(PipelineStep::AddTask(tasks[i].clone()));
            assert(steps.deep_view() =~= before.push(task_steps[i as int]));
            i += 1;
        }
        assert(steps.deep_view() =~= task_steps);
        let ghost root = spec.root_task_id@;
        steps.push(PipelineStep::SetRoot(spec.root_task_id));
        let ghost head = steps.deep_view();
        assert(head =~= task_steps + seq![StepModel::SetRoot(root)]);
        let mut j: usize = 0;
        while j < spec.edges.len()
            invariant
                j <= spec.edges.len(),
                edge_steps == spec.edges.deep_view().map_values(
                    |edge: EdgeModel| StepModel::AddEdge(edge),
                ),
                steps.deep_view() =~= head + edge_steps.take(j as int),
            decreases spec.edges.len() - j,
        {
            let ghost before = steps.deep_view();
            steps.push(PipelineStep::AddEdge(spec.edges[j].clone()));
            assert(steps.deep_view() =~= before.push(edge_steps[j as int]));
            j += 1;
        }
        let ghost built = steps.deep_view();
        assert(built =~= head + edge_steps);
        steps.push(PipelineStep::Start);
        steps.push(PipelineStep::Run(engagement));
        assert(steps.deep_view() =~= built + seq![
            StepModel::Start,
            StepModel::Run(engagement.deep_view()),
        ]);
        PipelineRun {
            name: spec.name,
            description: spec.description,
            is_repeating: spec.is_repeating,
            steps,
            position: 0,
            outcome: None,
        }
    }
}

impl PipelineRun {
    /// Until there is a result there is a step to take.
    #[verifier::type_invariant]
    spec fn inv(self) -> bool {
        self.outcome is None ==> self.position < self.steps.len()
    }

    /// The name of the pipeline.
    pub fn name(&self) -> (r: &String)
        ensures
            r@ == self@.name,
    {
        &self.name
    }

    /// The description of the pipeline.
    pub fn description(&self) -> (r: &String)
        ensures
            r@ == self@.description,
    {
        &self.description
    }

    /// Whether the pipeline starts over when it is through.
    pub fn is_repeating(&self) -> (r: bool)
        ensures
            r == self@.is_repeating,
    {
        self.is_repeating
    }

    /// The step to take now; none once there is a result.
    pub fn pending(&self) -> (r: Option<PipelineStep>)
        ensures
            r.deep_view() == self@.pending(),
            r is None <==> self@.outcome is Some,
            r matches Some(step) ==> 0 <= self@.position < self@.steps.len() && step.deep_view()
                == self@.steps[self@.position],
    {
        proof {
            use_type_invariant(self);
        }
        match self.outcome {
            Some(_) => None,
            None => Some(self.steps[self.position].clone()),
        }
    }

    /// Takes note of how the pending step went.
    pub fn observe(&mut self, reply: Result<String, String>)
        requires
            old(self)@.pending() is Some,
            reply is Err ==> old(self)@.pending()->0.may_fail(),
        ensures
            final(self)@ == old(self)@.after(reply_text(reply)),
            match reply {
                Ok(text) => if old(self)@.position + 1 < old(self)@.steps.len() {
                    final(self)@ == (RunModel {
                        position: old(self)@.position + 1,
                        ..old(self)@
                    })
                } else {
                    final(self)@ == (RunModel { outcome: Some(Ok(text@)), ..old(self)@ })
                },
                Err(e) => final(self)@ == (RunModel {
                    outcome: Some(
                        Err(
                            match old(self)@.steps[old(self)@.position] {
                                StepModel::SetRoot(_) => "Invalid root task: "@,
                                StepModel::AddEdge(_) => "Invalid pipeline edge: "@,
                                _ => "Pipeline execution failed: "@,
                            } + e@,
                        ),
                    ),
                    ..old(self)@
                }),
            },
    {
        proof {
            use_type_invariant(&*self);
        }
        match reply {
            Ok(text) => {
                if self.position + 1 == self.steps.len() {
                    self.outcome = Some(Ok(text));
                } else {
                    self.position = self.position + 1;
                }
            },
            Err(e) => {
                let heading = match &self.steps[self.position] {
                    PipelineStep::SetRoot(_) => "Invalid root task: ",
                    PipelineStep::AddEdge(_) => "Invalid pipeline edge: ",
                    _ => "Pipeline execution failed: ",
                };
                self.outcome = Some(Err(text::concat2(heading, e.as_str())));
            },
        }
    }

    /// The result of the pipeline, once there is one.
    pub fn outcome(self) -> (r: Option<Result<String, String>>)
        ensures
            match r {
                Some(result) => self@.outcome == Some(reply_text(result)),
                None => self@.outcome is None,
            },
            match r {
                Some(Ok(text)) => self@.outcome == Some(Ok::<Seq<char>, Seq<char>>(text@)),
                Some(Err(e)) => self@.outcome == Some(Err::<Seq<char>, Seq<char>>(e@)),
                None => self@.outcome is None,
            },
    {
        self.outcome
    }
}

// ---------------------------------------------------------------------------
// Laws
// ---------------------------------------------------------------------------

/// The run after its pending steps were answered with `replies`, one after the other.
pub open spec fn driven(
    run: RunModel,
    replies: Seq<Result<Seq<char>, Seq<char>>>,
) -> RunModel
    decreases replies.len(),
{
    if replies.len() == 0 {
        run
    } else {
        driven(run, replies.drop_last()).after(replies.last())
    }
}

proof fn driven_by_success(run: RunModel, replies: Seq<Result<Seq<char>, Seq<char>>>)
    requires
        run.outcome is None,
        run.position == 0,
        replies.len() < run.steps.len(),
        forall|i: int| 0 <= i < replies.len() ==> replies[i] is Ok,
    ensures
        driven(run, replies) == (RunModel { position: replies.len() as int, ..run }),
    decreases replies.len(),
{
    if replies.len() > 0 {
        driven_by_success(run, replies.drop_last());
    }
}

/// Steps are taken in order: as long as every reply is a success, the pending step is the one
/// after those answered.
pub proof fn steps_are_taken_in_order(
    run: RunModel,
    replies: Seq<Result<Seq<char>, Seq<char>>>,
)
    requires
        run.outcome is None,
        run.position == 0,
        replies.len() < run.steps.len(),
        forall|i: int| 0 <= i < replies.len() ==> replies[i] is Ok,
    ensures
        driven(run, replies).pending() == Some(run.steps[replies.len() as int]),
{
    driven_by_success(run, replies);
}

/// A pipeline of which every step succeeds yields the text of its last step, the run.
pub proof fn success_yields_the_last_text(
    run: RunModel,
    replies: Seq<Result<Seq<char>, Seq<char>>>,
)
    requires
        run.outcome is None,
        run.position == 0,
        run.steps.len() > 0,
        replies.len() == run.steps.len(),
        forall|i: int| 0 <= i < replies.len() ==> replies[i] is Ok,
    ensures
        driven(run, replies).outcome == Some(replies.last()),
        driven(run, replies).pending() is None,
{
    driven_by_success(run, replies.drop_last());
}

/// The first refused step ends the pipeline: its error comes out under that step's heading, and
/// no further step is pending.
pub proof fn first_refusal_ends_the_run(
    run: RunModel,
    replies: Seq<Result<Seq<char>, Seq<char>>>,
)
    requires
        run.outcome is None,
        run.position == 0,
        0 < replies.len() <= run.steps.len(),
        forall|i: int| 0 <= i < replies.len() - 1 ==> replies[i] is Ok,
        replies.last() is Err,
    ensures
        driven(run, replies).outcome == Some(
            Err::<Seq<char>, Seq<char>>(
                run.steps[replies.len() - 1].failure_heading() + replies.last()->Err_0,
            ),
        ),
        driven(run, replies).pending() is None,
{
    driven_by_success(run, replies.drop_last());
}

/// The last step of every pipeline is the run, and it is the only one.
pub proof fn the_run_comes_last(
    tasks: Seq<WorkflowTaskModel>,
    root: Seq<char>,
    edges: Seq<EdgeModel>,
    engagement: EngagementModel,
)
    ensures
        pipeline_steps(tasks, root, edges, engagement).len() == tasks.len() + edges.len() + 3,
        pipeline_steps(tasks, root, edges, engagement).last() == StepModel::Run(engagement),
        forall|i: int|
            0 <= i < pipeline_steps(tasks, root, edges, engagement).len() - 1 ==> !(
            #[trigger] pipeline_steps(tasks, root, edges, engagement)[i] is Run),
{
}

/// The model of a step shows it as it is.
pub proof fn steps_are_shown_whole(step: PipelineStep)
    ensures
        step matches PipelineStep::AddTask(task) ==> step.deep_view() == StepModel::AddTask(
            task.deep_view(),
        ),
        step matches PipelineStep::SetRoot(id) ==> step.deep_view() == StepModel::SetRoot(id@),
        step matches PipelineStep::AddEdge(edge) ==> step.deep_view() == StepModel::AddEdge(
            edge.deep_view(),
        ),
        step is Start ==> step.deep_view() is Start,
        step matches PipelineStep::Run(engagement) ==> step.deep_view() == StepModel::Run(
            engagement.deep_view(),
        ),
{
}

/// The graph that is built is the one that was asked for: each task as written and at its place,
/// the root named, each edge between the tasks named and under the very condition named, and the
/// run as it was asked for.
pub proof fn the_graph_is_the_one_asked_for(
    tasks: Seq<WorkflowTaskModel>,
    root: Seq<char>,
    edges: Seq<EdgeModel>,
    engagement: EngagementModel,
    i: int,
    j: int,
)
    ensures
        ({
            let steps = pipeline_steps(tasks, root, edges, engagement);
            &&& steps.len() == tasks.len() + edges.len() + 3
            &&& 0 <= i < tasks.len() ==> {
                &&& steps[i] is AddTask
                &&& steps[i]->AddTask_0.description == tasks[i].description
                &&& steps[i]->AddTask_0.mcp_contract_address == tasks[i].mcp_contract_address
                &&& tasks[i].task_id matches Some(id) ==> steps[i]->AddTask_0.task_id == id
                &&& tasks[i].task_id is None ==> steps[i]->AddTask_0.task_id == "task_"@
                    + text::decimal(i as nat)
            }
            &&& steps[tasks.len() as int] == StepModel::SetRoot(root)
            &&& 0 <= j < edges.len() ==> {
                let step = steps[tasks.len() + 1 + j];
                &&& step is AddEdge
                &&& step->AddEdge_0.from_task_id == edges[j].from_task_id
                &&& step->AddEdge_0.to_task_id == edges[j].to_task_id
                &&& step->AddEdge_0.condition == edges[j].condition
            }
            &&& steps[tasks.len() + edges.len() as int + 1] is Start
            &&& steps[tasks.len() + edges.len() as int + 2] == StepModel::Run(engagement)
        }),
{
    if 0 <= i < tasks.len() {
        workflow::tasks_are_handed_over_as_written(tasks, i);
    }
}

/// Adding a task and starting are never refused; a refusal of the root, of an edge and of the run
/// is reported as such.
pub proof fn refusals_say_what_was_refused(step: StepModel)
    ensures
        step.may_fail() <==> !(step is AddTask || step is Start),
        step is SetRoot ==> step.failure_heading() == "Invalid root task: "@,
        step is AddEdge ==> step.failure_heading() == "Invalid pipeline edge: "@,
        step is Run ==> step.failure_heading() == "Pipeline execution failed: "@,
{
}

} // verus!
