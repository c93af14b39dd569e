use tuiporal::command::{AppCommand, AppResult};
use tuiporal::config::{default_true, Config, ConnectionProfile};
use tuiporal::records::{
    get_event_type_name, get_namespace_state, get_workflow_id, get_workflow_start_time,
    get_workflow_status, get_workflow_type, HistoryEvent, Timestamp, WorkflowExecution,
    WorkflowExecutionInfo, WorkflowExecutionStatus,
};
use tuiporal::text::push_int;
use tuiporal::worker::{failed_outcome, RemoteOutcome, RemotePlan, Worker, HISTORY_PAGE_SIZE, PAGE_SIZE};

fn record(id: &str) -> WorkflowExecutionInfo {
    WorkflowExecutionInfo {
        execution: Some(WorkflowExecution { workflow_id: id.to_string(), run_id: "r".to_string() }),
        workflow_type: Some("Payment".to_string()),
        status: 7,
        start_time: Some(Timestamp { seconds: 1431648000, nanos: 0 }),
        close_time: None,
        task_queue: "tq".to_string(),
        history_length: 1,
    }
}

#[test]
fn record_labels() {
    let w = record("order-1");
    assert_eq!(get_workflow_id(&w), "order-1");
    assert_eq!(get_workflow_type(&w), "Payment");
    assert_eq!(get_workflow_status(&w), (WorkflowExecutionStatus::TimedOut, "Timed Out".to_string()));
    assert_eq!(get_workflow_start_time(&w), "2015-05-15 00:00:00 UTC");
    let blank = WorkflowExecutionInfo::placeholder();
    assert_eq!(get_workflow_id(&blank), "Unknown");
    assert_eq!(get_workflow_type(&blank), "Unknown");
    assert_eq!(get_workflow_start_time(&blank), "Unknown");
    assert_eq!(get_workflow_status(&blank).1, "Unknown");
    let mut odd = record("x");
    odd.status = 42;
    odd.start_time = Some(Timestamp { seconds: i64::MAX, nanos: 0 });
    assert_eq!(get_workflow_status(&odd).0, WorkflowExecutionStatus::Unspecified);
    assert_eq!(get_workflow_start_time(&odd), "Unknown");
    odd.status = 6;
    assert_eq!(get_workflow_status(&odd).1, "Continued");
}

#[test]
fn event_and_namespace_names() {
    assert_eq!(get_event_type_name(1), "WorkflowExecutionStarted");
    assert_eq!(get_event_type_name(26), "WorkflowExecutionSignaled");
    assert_eq!(get_event_type_name(40), "UpsertWorkflowSearchAttributes");
    assert_eq!(get_event_type_name(0), "Unknown(0)");
    assert_eq!(get_event_type_name(41), "Unknown(41)");
    assert_eq!(get_event_type_name(-7), "Unknown(-7)");
    assert_eq!(get_event_type_name(i32::MIN), "Unknown(-2147483648)");
    assert_eq!(get_namespace_state(1), "Registered");
    assert_eq!(get_namespace_state(3), "Deleted");
    assert_eq!(get_namespace_state(0), "Unspecified");
    assert_eq!(get_namespace_state(1234567), "Unknown(1234567)");
}

#[test]
fn decimal_text() {
    let mut s = String::from("n=");
    push_int(&mut s, 0);
    push_int(&mut s, 905);
    push_int(&mut s, i32::MAX);
    assert_eq!(s, "n=09052147483647");
}

#[test]
fn worker_plans() {
    let w = Worker::new("ns1".to_string());
    match w.plan(&AppCommand::LoadNextPage("q".to_string(), vec![3])) {
        RemotePlan::ListWorkflows(r) => {
            assert_eq!((r.namespace.as_str(), r.page_size, r.query.as_str()), ("ns1", PAGE_SIZE, "q"));
            assert_eq!(r.page_token, vec![3]);
        }
        _ => panic!(),
    }
    match w.plan(&AppCommand::LoadPreviousPage("q".to_string())) {
        RemotePlan::ListWorkflows(r) => assert!(r.page_token.is_empty()),
        _ => panic!(),
    }
    match w.plan(&AppCommand::ViewWorkflowDetail("w1".to_string(), "r1".to_string())) {
        RemotePlan::Detail(l, h) => {
            assert_eq!(l.query, "WorkflowId = 'w1'");
            assert_eq!(l.page_size, 1);
            assert_eq!((h.workflow_id.as_str(), h.run_id.as_str()), ("w1", "r1"));
            assert_eq!(h.page_size, HISTORY_PAGE_SIZE);
        }
        _ => panic!(),
    }
    match w.plan(&AppCommand::SignalWorkflow("w".to_string(), "r".to_string(), "s".to_string())) {
        RemotePlan::Signal(t, name) => {
            assert_eq!(t.namespace, "ns1");
            assert_eq!(name, "s");
        }
        _ => panic!(),
    }
    assert!(matches!(w.plan(&AppCommand::RefreshNamespaces), RemotePlan::ListNamespaces(50, _)));
}

#[test]
fn worker_results() {
    let mut w = Worker::new("a".to_string());
    let r = w.complete(
        AppCommand::RefreshWorkflows(String::new()),
        RemoteOutcome::Page(Err("timeout".to_string())),
    );
    assert!(matches!(r, AppResult::WorkflowsError(m) if m == "Failed to load workflows: timeout"));
    let r = w.complete(
        AppCommand::LoadNextPage(String::new(), vec![]),
        RemoteOutcome::Page(Err("x".to_string())),
    );
    assert!(matches!(r, AppResult::WorkflowsError(m) if m == "Failed to load next page: x"));
    let r = w.complete(AppCommand::LoadPreviousPage(String::new()), RemoteOutcome::Switched);
    assert!(matches!(r, AppResult::WorkflowsError(m)
        if m == "Failed to load previous page: the reply does not match the request"));
    let r = w.complete(
        AppCommand::TerminateWorkflow("w9".to_string(), "r".to_string(), "why".to_string()),
        RemoteOutcome::Acknowledged(Ok(())),
    );
    assert!(matches!(r, AppResult::WorkflowOperationSuccess(m) if m == "Workflow w9 terminated successfully"));
    let r = w.complete(
        AppCommand::CancelWorkflow("w9".to_string(), "r".to_string()),
        RemoteOutcome::Acknowledged(Ok(())),
    );
    assert!(matches!(r, AppResult::WorkflowOperationSuccess(m) if m == "Workflow w9 cancel requested successfully"));
    let r = w.complete(
        AppCommand::SignalWorkflow("w9".to_string(), "r".to_string(), "go".to_string()),
        RemoteOutcome::Acknowledged(Ok(())),
    );
    assert!(matches!(r, AppResult::WorkflowOperationSuccess(m) if m == "Signal 'go' sent to workflow w9 successfully"));
    let r = w.complete(
        AppCommand::CancelWorkflow("w9".to_string(), "r".to_string()),
        RemoteOutcome::Acknowledged(Err("denied".to_string())),
    );
    assert!(matches!(r, AppResult::WorkflowOperationError(m) if m == "Failed to cancel workflow: denied"));
    let r = w.complete(AppCommand::RefreshNamespaces, RemoteOutcome::Namespaces(Err("e".to_string())));
    assert!(matches!(r, AppResult::NamespacesError(m) if m == "Failed to load namespaces: e"));
    let r = w.complete(AppCommand::SwitchNamespace("b".to_string()), RemoteOutcome::Switched);
    assert!(matches!(r, AppResult::NamespaceSwitched { namespace } if namespace == "b"));
    assert_eq!(w.namespace, "b");
}

#[test]
fn detail_result_survives_missing_metadata() {
    let mut w = Worker::new("a".to_string());
    let ev = HistoryEvent { event_id: 1, event_type: 1, event_time: None, attributes: vec![] };
    let r = w.complete(
        AppCommand::ViewWorkflowDetail("w".to_string(), "r".to_string()),
        RemoteOutcome::Detail(Err("lookup failed".to_string()), Ok(Some(vec![ev]))),
    );
    match r {
        AppResult::WorkflowDetailLoaded { workflow, history } => {
            assert!(workflow.execution.is_none());
            assert_eq!(history.len(), 1);
        }
        _ => panic!(),
    }
    let r = w.complete(
        AppCommand::ViewWorkflowDetail("w".to_string(), "r".to_string()),
        RemoteOutcome::Detail(Ok(vec![record("found")]), Ok(None)),
    );
    match r {
        AppResult::WorkflowDetailLoaded { workflow, history } => {
            assert_eq!(get_workflow_id(&workflow), "found");
            assert!(history.is_empty());
        }
        _ => panic!(),
    }
    let r = w.complete(
        AppCommand::ViewWorkflowDetail("w".to_string(), "r".to_string()),
        RemoteOutcome::Detail(Ok(vec![]), Err("no history".to_string())),
    );
    assert!(matches!(r, AppResult::WorkflowDetailError(m) if m == "Failed to load workflow detail: no history"));
}

fn profile(name: &str, ns: &str) -> ConnectionProfile {
    ConnectionProfile {
        name: name.to_string(),
        address: "h:1".to_string(),
        namespace: ns.to_string(),
        tls: None,
        api_key: None,
    }
}

#[test]
fn active_profile_lookup() {
    let mut c = Config {
        profiles: vec![profile("a", "ns-a"), profile("b", "ns-b"), profile("b", "ns-b2")],
        active_profile: Some("b".to_string()),
    };
    assert_eq!(c.get_active_profile().unwrap().namespace, "ns-b");
    c.active_profile = None;
    assert_eq!(c.get_active_profile().unwrap().namespace, "ns-a");
    c.active_profile = Some("zzz".to_string());
    assert!(c.get_active_profile().is_none());
    let d = Config::default();
    assert_eq!(d.get_active_profile().unwrap().address, "localhost:7233");
    assert!(default_true());
}

#[test]
fn timestamp_texts() {
    assert_eq!(tuiporal::records::timestamp_text(None), "Unknown");
    let t = Timestamp { seconds: 0, nanos: 0 };
    assert_eq!(tuiporal::records::timestamp_text(Some(t)), "1970-01-01 00:00:00 UTC");
    let bad = Timestamp { seconds: 0, nanos: -1 };
    assert_eq!(tuiporal::records::timestamp_text(Some(bad)), "Unknown");
}

#[test]
fn disconnected_worker_answers_with_failures() {
    let mut w = Worker::new("a".to_string());
    let cmd = AppCommand::RefreshWorkflows("q".to_string());
    let outcome = failed_outcome(&w.plan(&cmd), "offline");
    assert!(matches!(w.complete(cmd, outcome), AppResult::WorkflowsError(m) if m == "Failed to load workflows: offline"));
    let cmd = AppCommand::ViewWorkflowDetail("w".to_string(), "r".to_string());
    let outcome = failed_outcome(&w.plan(&cmd), "offline");
    assert!(matches!(w.complete(cmd, outcome), AppResult::WorkflowDetailError(m) if m == "Failed to load workflow detail: offline"));
    let cmd = AppCommand::SignalWorkflow("w".to_string(), "r".to_string(), "s".to_string());
    let outcome = failed_outcome(&w.plan(&cmd), "offline");
    assert!(matches!(w.complete(cmd, outcome), AppResult::WorkflowOperationError(m) if m == "Failed to signal workflow: offline"));
    let cmd = AppCommand::SwitchNamespace("b".to_string());
    let outcome = failed_outcome(&w.plan(&cmd), "offline");
    assert!(matches!(w.complete(cmd, outcome), AppResult::NamespaceSwitched { .. }));
}
