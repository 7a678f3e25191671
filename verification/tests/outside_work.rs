use openclaw_weil::pipeline::{PipelineRun, PipelineStep};
use openclaw_weil::text::decimal_text;
use openclaw_weil::types::{
    AppletConfig, ChainFailure, HttpMethod, HttpResponse, PipelineCondition, PipelineEdge,
    PipelineSpec, WorkflowResult, WorkflowTask,
};
use openclaw_weil::OpenClawState;

fn fresh() -> OpenClawState {
    let config = AppletConfig {
        system_prompt: s("You help."),
        default_model: s("small"),
        max_history_turns: 3,
    };
    OpenClawState::new(None, config).unwrap()
}

fn s(text: &str) -> String {
    text.to_string()
}

fn task(id: Option<&str>, description: &str) -> WorkflowTask {
    WorkflowTask {
        task_id: id.map(s),
        description: s(description),
        mcp_contract_address: s("0x1"),
    }
}

#[test]
fn numerals() {
    assert_eq!(decimal_text(0), "0");
    assert_eq!(decimal_text(9), "9");
    assert_eq!(decimal_text(10), "10");
    assert_eq!(decimal_text(4096), "4096");
    assert_eq!(decimal_text(u64::MAX), "18446744073709551615");
}

#[test]
fn workflow_needs_a_task() {
    assert_eq!(
        fresh().run_workflow(vec![], None, None, s("c")),
        Err(s("At least one task is required"))
    );
}

#[test]
fn workflow_tasks_keep_order_and_get_ids() {
    let tasks = vec![task(None, "a"), task(Some("x"), "b"), task(None, "c")];
    let call = fresh().run_workflow(tasks, Some(s("large")), None, s("c")).unwrap();
    assert_eq!(call.engagement.model, "large");
    assert_eq!(call.engagement.caller, "c");
    assert_eq!(call.engagement.model_key, None);
    let ids: Vec<&str> = call.tasks.iter().map(|t| t.task_id.as_str()).collect();
    assert_eq!(ids, vec!["task_0", "x", "task_2"]);
    let texts: Vec<&str> = call.tasks.iter().map(|t| t.description.as_str()).collect();
    assert_eq!(texts, vec!["a", "b", "c"]);
    assert_eq!(call.tasks[2].mcp_contract_address, "0x1");
}

#[test]
fn the_eleventh_task_has_a_two_digit_id() {
    let tasks: Vec<WorkflowTask> = (0..11).map(|_| task(None, "a")).collect();
    let call = fresh().run_workflow(tasks, None, None, s("c")).unwrap();
    assert_eq!(call.tasks[10].task_id, "task_10");
    assert_eq!(call.engagement.model, "small");
}

#[test]
fn workflow_results_are_joined() {
    assert_eq!(
        OpenClawState::run_workflow_reply(Ok(vec![s("a"), s("b"), s("c")])),
        Ok(WorkflowResult::Completed(s("a\n\n---\n\nb\n\n---\n\nc")))
    );
    assert_eq!(
        OpenClawState::run_workflow_reply(Ok(vec![s("a")])),
        Ok(WorkflowResult::Completed(s("a")))
    );
    assert_eq!(
        OpenClawState::run_workflow_reply(Ok(vec![])),
        Ok(WorkflowResult::Completed(s("")))
    );
}

#[test]
fn a_broken_workflow_tells_where_to_resume() {
    let failure = ChainFailure { err_msg: s("boom"), index: 2, previous_result: Some(s("half")) };
    assert_eq!(
        OpenClawState::run_workflow_reply(Err(failure)),
        Ok(WorkflowResult::Failed {
            error: s("boom"),
            resume_index: 2,
            previous_result: Some(s("half"))
        })
    );
}

fn pipeline() -> PipelineRun {
    let spec = PipelineSpec {
        name: s("p"),
        description: s("d"),
        is_repeating: true,
        tasks: vec![task(None, "a"), task(Some("x"), "b")],
        root_task_id: s("task_0"),
        edges: vec![PipelineEdge {
            from_task_id: s("task_0"),
            to_task_id: s("x"),
            condition: PipelineCondition::Equals(s("yes")),
        }],
    };
    fresh().run_pipeline(spec, None, Some(s("key")), s("c"))
}

#[test]
fn pipeline_is_built_in_order() {
    let mut run = pipeline();
    assert_eq!(run.name(), "p");
    assert_eq!(run.description(), "d");
    assert!(run.is_repeating());
    let mut steps: Vec<PipelineStep> = Vec::new();
    while let Some(step) = run.pending() {
        let reply = if matches!(step, PipelineStep::Run(_)) { s("done") } else { s("") };
        steps.push(step);
        run.observe(Ok(reply));
    }
    assert_eq!(steps.len(), 6);
    assert!(matches!(&steps[0], PipelineStep::AddTask(t) if t.task_id == "task_0"));
    assert!(matches!(&steps[1], PipelineStep::AddTask(t) if t.task_id == "x"));
    assert_eq!(steps[2], PipelineStep::SetRoot(s("task_0")));
    assert!(matches!(&steps[3], PipelineStep::AddEdge(e) if e.to_task_id == "x"
        && e.from_task_id == "task_0" && e.condition == PipelineCondition::Equals(s("yes"))));
    assert_eq!(steps[4], PipelineStep::Start);
    assert!(matches!(&steps[5], PipelineStep::Run(e) if e.model == "small" && e.caller == "c"
        && e.model_key == Some(s("key"))));
    assert_eq!(run.outcome(), Some(Ok(s("done"))));
}

fn refused_at(place: usize) -> Option<Result<String, String>> {
    let mut run = pipeline();
    for _ in 0..place {
        run.observe(Ok(s("")));
    }
    run.observe(Err(s("no")));
    assert_eq!(run.pending(), None);
    run.outcome()
}

#[test]
fn a_refused_step_ends_the_pipeline() {
    assert_eq!(refused_at(2), Some(Err(s("Invalid root task: no"))));
    assert_eq!(refused_at(3), Some(Err(s("Invalid pipeline edge: no"))));
    assert_eq!(refused_at(5), Some(Err(s("Pipeline execution failed: no"))));
}

#[test]
fn an_unfinished_pipeline_has_no_outcome() {
    assert_eq!(pipeline().outcome(), None);
}

#[test]
fn fetch_methods() {
    let method = |name: Option<&str>| fresh().web_fetch(s("u"), name.map(s), None).method;
    assert_eq!(method(None), HttpMethod::Get);
    assert_eq!(method(Some("GET")), HttpMethod::Get);
    assert_eq!(method(Some("POST")), HttpMethod::Post);
    assert_eq!(method(Some("PUT")), HttpMethod::Put);
    assert_eq!(method(Some("DELETE")), HttpMethod::Delete);
    assert_eq!(method(Some("PATCH")), HttpMethod::Patch);
    assert_eq!(method(Some("post")), HttpMethod::Get);
    assert_eq!(method(Some("BREW")), HttpMethod::Get);
}

#[test]
fn fetch_request_carries_url_and_body() {
    let request = fresh().web_fetch(s("http://h/"), Some(s("PUT")), Some(s("b")));
    assert_eq!(request.url, "http://h/");
    assert_eq!(request.body, Some(s("b")));
    assert_eq!(fresh().web_fetch(s("u"), None, None).body, None);
}

#[test]
fn fetch_replies() {
    let reply = |status: u16| {
        OpenClawState::web_fetch_reply(Ok(HttpResponse { status, text: s("body") }))
    };
    assert_eq!(reply(200), Ok(s("body")));
    assert_eq!(reply(399), Ok(s("body")));
    assert_eq!(reply(400), Err(s("HTTP error 400: body")));
    assert_eq!(reply(503), Err(s("HTTP error 503: body")));
    assert_eq!(
        OpenClawState::web_fetch_reply(Err(s("refused"))),
        Err(s("HTTP request failed: refused"))
    );
}

#[test]
fn given_ids_are_kept_to_the_last_task() {
    let call = fresh().run_workflow(vec![task(Some("x"), "a")], None, None, s("c")).unwrap();
    assert_eq!(call.tasks[0].task_id, "x");
    let tasks = vec![task(None, "a"), task(Some("y"), "b")];
    let call = fresh().run_workflow(tasks, None, None, s("c")).unwrap();
    assert_eq!(call.tasks[1].task_id, "y");
}
