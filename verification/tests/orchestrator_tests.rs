use graphql_datafusion::agent_client::{AgentClient, AgentError};
use graphql_datafusion::engine::sample_records;
use graphql_datafusion::error::ErrorKind;
use graphql_datafusion::orchestrator::{
    AgentOrchestrator, PipelineError, PipelineEvent, PipelineOp, PipelineStage, QueryTask,
};

fn orchestrator_with(names: &[&str], retry_attempts: u32) -> AgentOrchestrator {
    let clients: Vec<(String, AgentClient)> = names
        .iter()
        .map(|n| (n.to_string(), AgentClient::new("http://localhost:11434".to_string(), "llama2".to_string())))
        .collect();
    AgentOrchestrator::new(clients, "default".to_string(), retry_attempts, 10)
}

fn usage(orch: &AgentOrchestrator, name: &str) -> u64 {
    orch.get_agent_status(name).unwrap().requests_processed
}

/// Drives one task to delivery against a scripted backend whose translate
/// replies come from `translate_replies` in order.
fn drive(
    orch: &mut AgentOrchestrator,
    mut task: QueryTask,
    translate_replies: &mut Vec<Result<String, AgentError>>,
    summary_reply: &str,
) -> QueryTask {
    loop {
        let ev = match orch.next_op(&task) {
            PipelineOp::AskBackend(_prompt) => {
                if translate_replies.is_empty() {
                    PipelineEvent::BackendReply(Ok(summary_reply.to_string()))
                } else {
                    PipelineEvent::BackendReply(translate_replies.remove(0))
                }
            }
            PipelineOp::RunSql(_sql) => PipelineEvent::EngineRows(Ok(sample_records())),
            PipelineOp::Feed(text) => PipelineEvent::BackendReply(Ok(text)),
            PipelineOp::Deliver => return task,
        };
        task = orch.on_event(task, ev);
    }
}

#[test]
fn orchestrator_registers_agents() {
    let orch = orchestrator_with(&["default", "analyst"], 3);
    let names = orch.get_available_agents();
    assert_eq!(names, vec!["default".to_string(), "analyst".to_string()]);
}

#[test]
fn duplicate_registration_keeps_last_client() {
    let clients = vec![
        ("default".to_string(), AgentClient::new("http://a".to_string(), "m1".to_string())),
        ("default".to_string(), AgentClient::new("http://b".to_string(), "m2".to_string())),
    ];
    let orch = AgentOrchestrator::new(clients, "default".to_string(), 3, 10);
    assert_eq!(orch.get_available_agents().len(), 1);
    assert_eq!(orch.get_agent_status("default").unwrap().model, "m2");
}

#[test]
fn unregistered_agent_fails_immediately() {
    // An unknown agent name is terminal: no task is created and no backend
    // call is ever issued for it.
    let orch = orchestrator_with(&["default"], 3);
    let r = orch.start_query("show totals", Some("nonexistent".to_string()));
    assert_eq!(r.unwrap_err(), PipelineError::AgentNotFound("nonexistent".to_string()));
}

#[test]
fn pipeline_completes_and_counts_once() {
    let mut orch = orchestrator_with(&["default"], 3);
    let task = orch.start_query("show totals", None).unwrap();
    let mut replies = vec![Ok("SELECT * FROM sample".to_string())];
    let done = drive(&mut orch, task, &mut replies, "sales rose");
    match done.stage {
        PipelineStage::Done { records, insights } => {
            assert_eq!(records.len(), 3);
            assert_eq!(insights, "sales rose");
        }
        _ => panic!("the pipeline should have completed"),
    }
    assert_eq!(usage(&orch, "default"), 1);
}

#[test]
fn retry_succeeds_on_final_attempt_and_counts_once() {
    // The backend fails the first two attempts and succeeds on the third;
    // with three attempts configured the run completes and the usage
    // counter moves by exactly one.
    let mut orch = orchestrator_with(&["default"], 3);
    let task = orch.start_query("show totals", None).unwrap();
    let mut replies = vec![
        Err(AgentError::Unreachable("down".to_string())),
        Err(AgentError::Status(503, "busy".to_string())),
        Ok("SELECT * FROM sample".to_string()),
    ];
    let done = drive(&mut orch, task, &mut replies, "steady");
    assert!(matches!(done.stage, PipelineStage::Done { .. }));
    assert_eq!(usage(&orch, "default"), 1);
}

#[test]
fn retry_exhaustion_surfaces_last_error() {
    let mut orch = orchestrator_with(&["default"], 2);
    let mut task = orch.start_query("q", None).unwrap();
    task = orch.on_event(
        task,
        PipelineEvent::BackendReply(Err(AgentError::Unreachable("first".to_string()))),
    );
    assert!(matches!(task.stage, PipelineStage::Translate));
    assert_eq!(task.attempt, 1);
    task = orch.on_event(
        task,
        PipelineEvent::BackendReply(Err(AgentError::Status(500, "second".to_string()))),
    );
    match task.stage {
        PipelineStage::Failed { error } => {
            assert_eq!(error, PipelineError::Agent(AgentError::Status(500, "second".to_string())));
            assert_eq!(error.kind(), ErrorKind::Agent);
        }
        _ => panic!("the run should have failed after the last attempt"),
    }
    assert_eq!(usage(&orch, "default"), 0);
}

#[test]
fn engine_failure_is_retried_as_execution_error() {
    let mut orch = orchestrator_with(&["default"], 1);
    let mut task = orch.start_query("q", None).unwrap();
    task = orch.on_event(task, PipelineEvent::BackendReply(Ok("SELECT 1".to_string())));
    assert!(matches!(task.stage, PipelineStage::Execute { .. }));
    task = orch.on_event(task, PipelineEvent::EngineRows(Err("table missing".to_string())));
    match task.stage {
        PipelineStage::Failed { error } => {
            assert_eq!(error, PipelineError::Execution("table missing".to_string()));
            assert_eq!(error.kind(), ErrorKind::Execution);
        }
        _ => panic!("a single-attempt run fails on the engine error"),
    }
}

#[test]
fn invalid_translation_counts_as_agent_error() {
    let mut orch = orchestrator_with(&["default"], 1);
    let mut task = orch.start_query("q", None).unwrap();
    task = orch.on_event(task, PipelineEvent::BackendReply(Ok("no statement here".to_string())));
    match task.stage {
        PipelineStage::Failed { error } => {
            assert_eq!(error, PipelineError::Agent(AgentError::InvalidResponse));
        }
        _ => panic!("a reply without SELECT must fail the attempt"),
    }
}

#[test]
fn second_run_is_served_from_cache() {
    let mut orch = orchestrator_with(&["default"], 3);
    let task = orch.start_query("show totals", None).unwrap();
    let mut replies = vec![Ok("SELECT * FROM sample".to_string())];
    drive(&mut orch, task, &mut replies, "first summary");

    // The translation is now cached: the next run of the same input needs
    // no translate call, and the cached statement is fed back.
    let task2 = orch.start_query("show totals", None).unwrap();
    match orch.next_op(&task2) {
        PipelineOp::Feed(sql) => assert_eq!(sql, "SELECT * FROM sample"),
        _ => panic!("the second run must start from the cached translation"),
    }
    let done = drive(&mut orch, task2, &mut Vec::new(), "second summary");
    assert!(matches!(done.stage, PipelineStage::Done { .. }));
    assert_eq!(usage(&orch, "default"), 2);
}

#[test]
fn empty_rows_complete_with_no_data_message() {
    let mut orch = orchestrator_with(&["default"], 1);
    let mut task = orch.start_query("q", None).unwrap();
    task = orch.on_event(task, PipelineEvent::BackendReply(Ok("SELECT 1".to_string())));
    task = orch.on_event(task, PipelineEvent::EngineRows(Ok(Vec::new())));
    // An empty dataset needs no backend call: the fixed reply is fed back.
    match orch.next_op(&task) {
        PipelineOp::Feed(msg) => {
            assert_eq!(msg, "No data available for analysis.");
            task = orch.on_event(task, PipelineEvent::BackendReply(Ok(msg)));
        }
        _ => panic!("an empty dataset must not reach the backend"),
    }
    match task.stage {
        PipelineStage::Done { records, insights } => {
            assert!(records.is_empty());
            assert_eq!(insights, "No data available for analysis.");
        }
        _ => panic!("the run should have completed"),
    }
}

#[test]
fn insight_fanout_is_exact_match_and_exactly_once() {
    // A subscriber registered for query text Q is notified exactly once per
    // completion keyed to Q, and never for other query texts.
    let mut orch = orchestrator_with(&["default"], 3);
    let a = orch.subscribe_insights("top customers".to_string());
    let b = orch.subscribe_insights("slow orders".to_string());
    let c = orch.subscribe_insights("top customers".to_string());

    let recipients = orch.insight_recipients("top customers");
    assert_eq!(recipients.len(), 2);
    assert!(recipients.contains(&a));
    assert!(recipients.contains(&c));
    assert!(!recipients.contains(&b));

    // No subscribers for this key: publishing would be a silent no-op.
    assert!(orch.insight_recipients("unheard of").is_empty());
}

#[test]
fn status_fanout_is_keyed_by_agent_name() {
    let mut orch = orchestrator_with(&["default", "analyst"], 3);
    let a = orch.subscribe_agent_status("analyst".to_string());
    let _d = orch.subscribe_agent_status("default".to_string());
    let recipients = orch.status_recipients("analyst");
    assert_eq!(recipients, vec![a]);
}

#[test]
fn agent_status_snapshot() {
    let orch = orchestrator_with(&["default"], 3);
    let status = orch.get_agent_status("default").unwrap();
    assert_eq!(status.agent_type, "default");
    assert_eq!(status.status, "active");
    assert_eq!(status.model, "llama2");
    assert_eq!(status.requests_processed, 0);
    assert!(!status.last_update.is_empty());
    assert!(orch.get_agent_status("missing").is_none());
}

#[test]
fn connection_report_covers_every_agent() {
    let orch = orchestrator_with(&["default"], 3);
    let outcomes = vec![
        ("default".to_string(), Ok(true)),
        ("analyst".to_string(), Ok(false)),
        ("remote".to_string(), Err(AgentError::Unreachable("refused".to_string()))),
    ];
    let report = orch.connection_report(outcomes);
    assert_eq!(
        report,
        vec![
            ("default".to_string(), true),
            ("analyst".to_string(), false),
            ("remote".to_string(), false),
        ]
    );
}

#[test]
fn sample_records_fixture() {
    let records = sample_records();
    assert_eq!(records.len(), 3);
    assert_eq!(records[0].name, "Sample 1");
    assert_eq!(records[0].value, 100);
    assert_eq!(records[2].id, 3);
}
