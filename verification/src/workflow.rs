//! Workflows: chains of tasks that run one after the other.

use crate::state::OpenClawState;
use crate::text;
use crate::types::{
    AgentTask, AgentTaskModel, ChainCall, ChainFailure, WorkflowResult, WorkflowTask,
    WorkflowTaskModel,
};
use vstd::prelude::*;

verus! {

/// The id of the task at place `i` where its author gave none.
pub open spec fn default_task_id(i: nat) -> Seq<char> {
    "task_"@ + text::decimal(i)
}

/// The task at place `i` as it is handed over.
pub open spec fn planned_task(task: WorkflowTaskModel, i: nat) -> AgentTaskModel {
    AgentTaskModel {
        task_id: match task.task_id {
            Some(id) => id,
            None => default_task_id(i),
        },
        description: task.description,
        mcp_contract_address: task.mcp_contract_address,
    }
}

/// All tasks as they are handed over, in the order given.
pub open spec fn planned_tasks(tasks: Seq<WorkflowTaskModel>) -> Seq<AgentTaskModel> {
    Seq::new(tasks.len(), |i: int| planned_task(tasks[i], i as nat))
}

/// `parts` in order, with `separator` between neighbours.
pub open spec fn joined(parts: Seq<Seq<char>>, separator: Seq<char>) -> Seq<char>
    decreases parts.len(),
{
    if parts.len() == 0 {
        Seq::empty()
    } else if parts.len() == 1 {
        parts[0]
    } else {
        joined(parts.drop_last(), separator) + separator + parts.last()
    }
}

pub(crate) fn plan_tasks(tasks: &Vec<WorkflowTask>) -> (r: Vec<AgentTask>)
    ensures
        r.deep_view() == planned_tasks(tasks.deep_view()),
        r.len() == tasks.len(),
        forall|i: int|
            0 <= i < tasks.len() ==> {
                &&& (#[trigger] r[i]).description@ == tasks[i].description@
                &&& r[i].mcp_contract_address@ == tasks[i].mcp_contract_address@
                &&& r[i].task_id@ == match tasks[i].task_id {
                    Some(id) => id@,
                    None => "task_"@ + text::decimal(i as nat),
                }
            },
{
    let mut r: Vec<AgentTask> = Vec::new();
    let mut i: usize = 0;
    while i < tasks.len()
        invariant
            i <= tasks.len(),
            r.len() == i,
            forall|j: int|
                0 <= j < i ==> (#[trigger] r[j]).deep_view() == planned_task(
                    tasks[j].deep_view(),
                    j as nat,
                ),
            forall|j: int|
                0 <= j < i ==> {
                    &&& (#[trigger] r[j]).description@ == tasks[j].description@
                    &&& r[j].mcp_contract_address@ == tasks[j].mcp_contract_address@
                    &&& r[j].task_id@ == match tasks[j].task_id {
                        Some(id) => id@,
                        None => "task_"@ + text::decimal(j as nat),
                    }
                },
        decreases tasks.len() - i,
    {
        let task_id = match &tasks[i].task_id {
            Some(id) => id.clone(),
            None => text::concat2("task_", text::decimal_text(i as u64).as_str()),
        };
        r.push(
            AgentTask {
                task_id,
                description: tasks[i].description.clone(),
                mcp_contract_address: tasks[i].mcp_contract_address.clone(),
            },
        );
        i += 1;
    }
    assert(r.deep_view() =~= planned_tasks(tasks.deep_view()));
    r
}

/// Joins `parts` with `separator` between neighbours.
pub(crate) fn join(parts: &Vec<String>, separator: &str) -> (r: String)
    ensures
        r@ == joined(parts.deep_view(), separator@),
{
    let mut r = String::new();
    let mut i: usize = 0;
    let ghost all = parts.deep_view();
    while i < parts.len()
        invariant
            i <= parts.len(),
            all == parts.deep_view(),
            r@ == joined(all.take(i as int), separator@),
        decreases parts.len() - i,
    {
        if i > 0 {
            r.append(separator);
        }
        r.append(parts[i].as_str());
        proof {
            let next = all.take(i + 1);
            assert(next.last() == parts[i as int]@);
            assert(next.drop_last() =~= all.take(i as int));
            assert(r@ =~= joined(next, separator@));
        }
        i += 1;
    }
    assert(all.take(i as int) =~= all);
    r
}

impl OpenClawState {
    /// Prepares a workflow: the chain of its tasks, in order, each with its id or with one made
    /// from its place. A workflow without tasks is refused.
    pub fn run_workflow(
        &self,
        tasks: Vec<WorkflowTask>,
        model: Option<String>,
        model_key: Option<String>,
        caller: String,
    ) -> (r: Result<ChainCall, String>)
        ensures
            match r {
                Ok(call) => tasks.len() > 0 && call.engagement.deep_view() == self@.engagement(
                    caller@,
                    model.deep_view(),
                    model_key.deep_view(),
                ) && call.tasks.deep_view() == planned_tasks(tasks.deep_view()),
                Err(e) => tasks.len() == 0 && e@ == "At least one task is required"@,
            },
            r matches Ok(call) ==> {
                &&& call.engagement.caller == caller
                &&& match model {
                    Some(name) => call.engagement.model == name,
                    None => call.engagement.model@ == self.config.default_model@,
                }
                &&& call.engagement.model_key == model_key
                &&& call.tasks.len() == tasks.len()
                &&& forall|i: int|
                    0 <= i < tasks.len() ==> {
                        &&& (#[trigger] call.tasks[i]).description@ == tasks[i].description@
                        &&& call.tasks[i].mcp_contract_address@ == tasks[i].mcp_contract_address@
                        &&& call.tasks[i].task_id@ == match tasks[i].task_id {
                            Some(id) => id@,
                            None => "task_"@ + text::decimal(i as nat),
                        }
                    }
            },
    {
        if tasks.len() == 0 {
            return Err("At least one task is required".to_string());
        }
        Ok(
            ChainCall {
                engagement: self.engage(caller, model, model_key),
                tasks: plan_tasks(&tasks),
            },
        )
    }

    /// What a workflow yields once its chain has run: the results of all tasks, or where and how
    /// the chain broke off.
    pub fn run_workflow_reply(outcome: Result<Vec<String>, ChainFailure>) -> (r: Result<
        WorkflowResult,
        String,
    >)
        ensures
            match outcome {
                Ok(results) => r matches Ok(WorkflowResult::Completed(joint)) && joint@ == joined(
                    results.deep_view(),
                    "\n\n---\n\n"@,
                ),
                Err(failure) => r == Ok::<WorkflowResult, String>(
                    WorkflowResult::Failed {
                        error: failure.err_msg,
                        resume_index: failure.index,
                        previous_result: failure.previous_result,
                    },
                ),
            },
    {
        match outcome {
            Ok(results) => Ok(WorkflowResult::Completed(join(&results, "\n\n---\n\n"))),
            Err(failure) => Ok(
                WorkflowResult::Failed {
                    error: failure.err_msg,
                    resume_index: failure.index,
                    previous_result: failure.previous_result,
                },
            ),
        }
    }
}

/// Tasks without an id never get the same one.
pub proof fn default_task_ids_differ(i: nat, j: nat)
    requires
        i != j,
    ensures
        default_task_id(i) != default_task_id(j),
{
    if default_task_id(i) == default_task_id(j) {
        text::concat_cancels_left("task_"@, text::decimal(i), text::decimal(j));
        text::decimal_injective(i, j);
    }
}

/// Tasks that carry an id are handed over with exactly that id, and those that carry none with
/// pairwise different ones.
pub proof fn planned_ids(tasks: Seq<WorkflowTaskModel>)
    ensures
        planned_tasks(tasks).len() == tasks.len(),
        forall|i: int|
            0 <= i < tasks.len() && tasks[i].task_id is Some ==> (#[trigger] planned_tasks(
                tasks,
            )[i]).task_id == tasks[i].task_id->0,
        forall|i: int, j: int|
            0 <= i < j < tasks.len() && tasks[i].task_id is None && tasks[j].task_id is None ==> (
            #[trigger] planned_tasks(tasks)[i]).task_id != (#[trigger] planned_tasks(
                tasks,
            )[j]).task_id,
{
    assert forall|i: int, j: int|
        0 <= i < j < tasks.len() && tasks[i].task_id is None && tasks[j].task_id is None implies (
    #[trigger] planned_tasks(tasks)[i]).task_id != (#[trigger] planned_tasks(tasks)[j]).task_id by {
        default_task_ids_differ(i as nat, j as nat);
    }
}

/// Every task is handed over as its author wrote it, at the place where it was written: with that
/// task's description and that task's contract, and under its id, or under "task_" and its place
/// where it has none.
pub proof fn tasks_are_handed_over_as_written(tasks: Seq<WorkflowTaskModel>, i: int)
    requires
        0 <= i < tasks.len(),
    ensures
        planned_tasks(tasks).len() == tasks.len(),
        planned_tasks(tasks)[i].description == tasks[i].description,
        planned_tasks(tasks)[i].mcp_contract_address == tasks[i].mcp_contract_address,
        tasks[i].task_id matches Some(id) ==> planned_tasks(tasks)[i].task_id == id,
        tasks[i].task_id is None ==> planned_tasks(tasks)[i].task_id == "task_"@ + text::decimal(
            i as nat,
        ),
{
}

/// What one task says has no bearing on how another one is handed over.
pub proof fn tasks_do_not_mix(
    tasks: Seq<WorkflowTaskModel>,
    i: int,
    other: WorkflowTaskModel,
    j: int,
)
    requires
        0 <= i < tasks.len(),
        0 <= j < tasks.len(),
        i != j,
    ensures
        planned_tasks(tasks.update(j, other))[i] == planned_tasks(tasks)[i],
{
}

/// Joining nothing gives nothing, joining one part gives that part, and joining two series of parts
/// joins each and puts one separator between them.
pub proof fn joining_by_parts(
    a: Seq<Seq<char>>,
    b: Seq<Seq<char>>,
    part: Seq<char>,
    separator: Seq<char>,
)
    ensures
        joined(Seq::empty(), separator).len() == 0,
        joined(seq![part], separator) == part,
        a.len() > 0 && b.len() > 0 ==> joined(a + b, separator) == joined(a, separator) + separator
            + joined(b, separator),
    decreases b.len(),
{
    if a.len() > 0 && b.len() > 0 {
        let init = b.drop_last();
        assert((a + b).drop_last() =~= a + init);
        assert((a + b).last() == b.last());
        if b.len() == 1 {
            assert(a + init =~= a);
        } else {
            joining_by_parts(a, init, part, separator);
            assert(joined(a + b, separator) =~= joined(a, separator) + separator + joined(
                b,
                separator,
            ));
        }
    }
}

} // verus!
