use tuiporal::app::{App, ConnectionStatus, KeyCode};
use tuiporal::command::{AppCommand, AppResult};
use tuiporal::config::Config;
use tuiporal::detail::WorkflowOperation;
use tuiporal::records::{NamespaceDescription, NamespaceInfo, WorkflowExecution, WorkflowExecutionInfo};
use tuiporal::screens::Screen;

fn record(id: &str) -> WorkflowExecutionInfo {
    WorkflowExecutionInfo {
        execution: Some(WorkflowExecution { workflow_id: id.to_string(), run_id: "r1".to_string() }),
        workflow_type: None,
        status: 2,
        start_time: None,
        close_time: None,
        task_queue: String::new(),
        history_length: 0,
    }
}

fn on_detail() -> App {
    let mut app = App::new(Config::default());
    app.apply_result(
        AppResult::WorkflowsLoaded { workflows: vec![record("wf-1")], next_page_token: vec![] },
        0,
    );
    let cmd = app.handle_key(KeyCode::Enter);
    match cmd {
        Some(AppCommand::ViewWorkflowDetail(id, run)) => {
            assert_eq!(id, "wf-1");
            assert_eq!(run, "r1");
        }
        _ => panic!("expected a detail load"),
    }
    assert_eq!(app.current_screen, Screen::WorkflowDetail);
    assert!(app.workflow_detail_state.loading);
    app.apply_result(AppResult::WorkflowDetailLoaded { workflow: record("wf-1"), history: vec![] }, 1);
    app
}

#[test]
fn new_session_uses_active_profile_namespace() {
    let app = App::new(Config::default());
    assert_eq!(app.current_namespace, "default");
    assert!(app.running);
    assert_eq!(app.current_screen, Screen::Workflows);
    assert!(matches!(app.connection_status, ConnectionStatus::Disconnected));
    let empty = Config { profiles: vec![], active_profile: None };
    let app = App::new(empty);
    assert_eq!(app.current_namespace, "default");
    assert!(app.start_connecting().is_none());
}

#[test]
fn connection_outcomes() {
    let mut app = App::new(Config::default());
    app.mark_connecting();
    assert!(matches!(app.connection_status, ConnectionStatus::Connecting));
    app.finish_connecting(Some(Err("refused".to_string())));
    match &app.connection_status {
        ConnectionStatus::Error(m) => assert_eq!(m, "Connection failed: refused"),
        _ => panic!("expected an error"),
    }
    app.finish_connecting(None);
    match &app.connection_status {
        ConnectionStatus::Error(m) => assert_eq!(m, "No active profile configured"),
        _ => panic!("expected an error"),
    }
    app.finish_connecting(Some(Ok(())));
    assert!(matches!(app.connection_status, ConnectionStatus::Connected));
}

#[test]
fn signal_with_empty_name_sends_nothing() {
    let mut app = on_detail();
    assert!(app.handle_key(KeyCode::Char('s')).is_none());
    assert_eq!(app.workflow_detail_state.show_dialog, Some(WorkflowOperation::Signal));
    let cmd = app.handle_key(KeyCode::Enter);
    assert!(cmd.is_none());
    assert_eq!(app.workflow_detail_state.error.as_deref(), Some("Signal name cannot be empty"));
    assert_eq!(app.workflow_detail_state.show_dialog, None);
}

#[test]
fn signal_with_name_is_sent_and_dialog_closes() {
    let mut app = on_detail();
    app.handle_key(KeyCode::Char('s'));
    for c in "go!".chars() {
        app.handle_key(KeyCode::Char(c));
    }
    app.handle_key(KeyCode::Backspace);
    match app.handle_key(KeyCode::Enter) {
        Some(AppCommand::SignalWorkflow(id, run, name)) => {
            assert_eq!((id.as_str(), run.as_str(), name.as_str()), ("wf-1", "r1", "go"));
        }
        _ => panic!("expected a signal"),
    }
    assert_eq!(app.workflow_detail_state.show_dialog, None);
    assert_eq!(app.workflow_detail_state.dialog_input, "");
}

#[test]
fn terminate_uses_default_reason_and_cancel_takes_no_input() {
    let mut app = on_detail();
    app.handle_key(KeyCode::Char('t'));
    match app.handle_key(KeyCode::Enter) {
        Some(AppCommand::TerminateWorkflow(_, _, reason)) => assert_eq!(reason, "Terminated by user"),
        _ => panic!("expected a terminate"),
    }
    app.handle_key(KeyCode::Char('x'));
    assert!(matches!(app.handle_key(KeyCode::Enter), Some(AppCommand::CancelWorkflow(_, _))));
    app.handle_key(KeyCode::Char('t'));
    app.handle_key(KeyCode::Esc);
    assert_eq!(app.workflow_detail_state.show_dialog, None);
}

#[test]
fn banner_swallows_one_key() {
    let mut app = on_detail();
    app.apply_result(AppResult::WorkflowOperationSuccess("done".to_string()), 2);
    assert_eq!(app.workflow_detail_state.success_message.as_deref(), Some("done"));
    // this 'q' only dismisses the banner
    app.handle_key(KeyCode::Char('q'));
    assert!(app.workflow_detail_state.success_message.is_none());
    assert_eq!(app.current_screen, Screen::WorkflowDetail);
    app.handle_key(KeyCode::Char('q'));
    assert_eq!(app.current_screen, Screen::Workflows);
}

#[test]
fn operation_error_closes_dialog() {
    let mut app = on_detail();
    app.handle_key(KeyCode::Char('t'));
    app.handle_key(KeyCode::Char('z'));
    app.apply_result(AppResult::WorkflowOperationError("nope".to_string()), 3);
    assert_eq!(app.workflow_detail_state.failure_message.as_deref(), Some("nope"));
    assert!(app.workflow_detail_state.error.is_none());
    assert_eq!(app.workflow_detail_state.show_dialog, None);
    assert_eq!(app.workflow_detail_state.dialog_input, "");
    // the failure banner takes the next key and nothing else
    app.handle_key(KeyCode::Char('q'));
    assert!(app.workflow_detail_state.failure_message.is_none());
    assert_eq!(app.current_screen, Screen::WorkflowDetail);
}

#[test]
fn later_result_clears_banner() {
    let mut app = on_detail();
    app.apply_result(AppResult::WorkflowOperationSuccess("done".to_string()), 2);
    app.apply_result(AppResult::WorkflowsError("late".to_string()), 3);
    assert!(app.workflow_detail_state.success_message.is_none());
    app.apply_result(AppResult::WorkflowOperationError("bad".to_string()), 4);
    app.apply_result(AppResult::WorkflowOperationSuccess("good".to_string()), 5);
    assert!(app.workflow_detail_state.failure_message.is_none());
    assert_eq!(app.workflow_detail_state.success_message.as_deref(), Some("good"));
}

#[test]
fn signal_without_loaded_workflow_still_rejects_empty_name() {
    let mut app = App::new(Config::default());
    app.current_screen = Screen::WorkflowDetail;
    app.handle_key(KeyCode::Char('s'));
    assert!(app.handle_key(KeyCode::Enter).is_none());
    assert_eq!(app.workflow_detail_state.error.as_deref(), Some("Signal name cannot be empty"));
    assert_eq!(app.workflow_detail_state.show_dialog, None);
}

#[test]
fn first_command_loads_unfiltered_list() {
    let app = App::new(Config::default());
    match app.initial_command() {
        AppCommand::RefreshWorkflows(q) => assert_eq!(q, ""),
        _ => panic!("expected a refresh"),
    }
}

#[test]
fn namespace_screen_loads_once_and_switches() {
    let mut app = App::new(Config::default());
    assert!(matches!(app.handle_key(KeyCode::Char('2')), Some(AppCommand::RefreshNamespaces)));
    assert_eq!(app.current_screen, Screen::Namespaces);
    assert!(app.namespace_list_state.loading);
    app.apply_result(
        AppResult::NamespacesLoaded {
            namespaces: vec![
                NamespaceDescription { namespace_info: None },
                NamespaceDescription {
                    namespace_info: Some(NamespaceInfo {
                        name: "prod".to_string(),
                        state: 1,
                        description: String::new(),
                        owner_email: String::new(),
                    }),
                },
            ],
        },
        0,
    );
    assert_eq!(app.namespace_list_state.selected, Some(0));
    assert!(app.handle_key(KeyCode::Enter).is_none());
    app.handle_key(KeyCode::Down);
    let cmd = app.handle_key(KeyCode::Enter);
    match cmd {
        Some(AppCommand::SwitchNamespace(n)) => assert_eq!(n, "prod"),
        _ => panic!("expected a switch"),
    }
    app.handle_key(KeyCode::Char('1'));
    assert!(app.handle_key(KeyCode::Char('2')).is_none());
    let cmd = app.apply_result(AppResult::NamespaceSwitched { namespace: "prod".to_string() }, 5);
    assert!(matches!(cmd, Some(AppCommand::RefreshWorkflows(_))));
    assert_eq!(app.current_namespace, "prod");
    assert_eq!(app.current_screen, Screen::Workflows);
    assert!(app.workflow_list_state.loading);
}

#[test]
fn namespace_failure_keeps_rows() {
    let mut app = App::new(Config::default());
    app.apply_result(AppResult::NamespacesError("down".to_string()), 0);
    assert_eq!(app.namespace_list_state.error.as_deref(), Some("down"));
    app.apply_result(AppResult::WorkflowsError("down too".to_string()), 0);
    assert_eq!(app.workflow_list_state.error.as_deref(), Some("down too"));
    app.apply_result(AppResult::WorkflowDetailError("gone".to_string()), 0);
    assert_eq!(app.workflow_detail_state.error.as_deref(), Some("gone"));
}

#[test]
fn auto_refresh_only_on_workflow_screen() {
    let mut app = App::new(Config::default());
    assert!(app.auto_refresh(10_000).is_none());
    app.handle_key(KeyCode::Char('a'));
    assert!(app.workflow_list_state.auto_refresh_enabled);
    app.handle_key(KeyCode::Char('?'));
    assert!(app.auto_refresh(10_000).is_none());
    app.handle_key(KeyCode::Esc);
    assert!(matches!(app.auto_refresh(10_000), Some(AppCommand::RefreshWorkflows(_))));
    assert!(app.auto_refresh(10_000).is_none());
}

#[test]
fn help_scrolls_and_saturates() {
    let mut app = App::new(Config::default());
    app.handle_key(KeyCode::Char('?'));
    assert_eq!(app.current_screen, Screen::Help);
    app.handle_key(KeyCode::PageDown);
    app.handle_key(KeyCode::Down);
    assert_eq!(app.help_state.scroll_offset, 11);
    app.handle_key(KeyCode::PageUp);
    app.handle_key(KeyCode::PageUp);
    assert_eq!(app.help_state.scroll_offset, 0);
    app.help_state.scroll_offset = u16::MAX - 1;
    app.handle_key(KeyCode::PageDown);
    assert_eq!(app.help_state.scroll_offset, u16::MAX);
    app.handle_key(KeyCode::Char('?'));
    assert_eq!(app.current_screen, Screen::Workflows);
}

#[test]
fn event_overlay_takes_keys() {
    let mut app = App::new(Config::default());
    app.apply_result(
        AppResult::WorkflowsLoaded { workflows: vec![record("w")], next_page_token: vec![] },
        0,
    );
    app.handle_key(KeyCode::Enter);
    let ev = tuiporal::records::HistoryEvent {
        event_id: 1,
        event_type: 1,
        event_time: None,
        attributes: vec![],
    };
    app.apply_result(AppResult::WorkflowDetailLoaded { workflow: record("w"), history: vec![ev] }, 1);
    assert_eq!(app.workflow_detail_state.selected, Some(0));
    app.handle_key(KeyCode::Enter);
    assert!(app.workflow_detail_state.show_event_detail);
    app.handle_key(KeyCode::PageDown);
    app.handle_key(KeyCode::Up);
    assert_eq!(app.workflow_detail_state.event_detail_scroll_offset, 9);
    // 't' is taken by the overlay
    app.handle_key(KeyCode::Char('t'));
    assert_eq!(app.workflow_detail_state.show_dialog, None);
    app.handle_key(KeyCode::Esc);
    assert!(!app.workflow_detail_state.show_event_detail);
    assert_eq!(app.workflow_detail_state.event_detail_scroll_offset, 0);
}

#[test]
fn quit_and_paging_keys() {
    let mut app = App::new(Config::default());
    app.apply_result(
        AppResult::WorkflowsLoaded { workflows: vec![record("w")], next_page_token: vec![4] },
        0,
    );
    assert!(matches!(app.handle_key(KeyCode::Right), Some(AppCommand::LoadNextPage(_, _))));
    assert_eq!(app.workflow_list_state.current_page, 2);
    app.apply_result(
        AppResult::WorkflowsLoaded { workflows: vec![record("v")], next_page_token: vec![] },
        1,
    );
    assert!(matches!(app.handle_key(KeyCode::Char('p')), Some(AppCommand::LoadPreviousPage(_))));
    assert_eq!(app.workflow_list_state.current_page, 1);
    app.handle_key(KeyCode::Char('/'));
    app.handle_key(KeyCode::Char('q'));
    assert!(app.running);
    assert_eq!(app.workflow_list_state.query, "q");
    app.handle_key(KeyCode::Esc);
    app.handle_key(KeyCode::Char('q'));
    assert!(!app.running);
}

#[test]
fn spinner_and_frames() {
    let mut app = App::new(Config::default());
    assert_eq!(app.spinner(), "⠋");
    for _ in 0..3 {
        app.advance_frame();
    }
    assert_eq!(app.spinner(), "⠙");
    app.frame_count = u16::MAX;
    app.advance_frame();
    assert_eq!(app.frame_count, 0);
}

#[test]
fn opening_another_workflow_drops_the_previous_one() {
    let mut app = on_detail();
    app.workflow_detail_state.error = Some("old".to_string());
    app.handle_key(KeyCode::Char('q'));
    app.apply_result(
        AppResult::WorkflowsLoaded { workflows: vec![record("wf-2")], next_page_token: vec![] },
        2,
    );
    assert!(matches!(app.handle_key(KeyCode::Enter), Some(AppCommand::ViewWorkflowDetail(_, _))));
    let d = &app.workflow_detail_state;
    assert!(d.workflow.is_none() && d.history.is_empty() && d.selected.is_none());
    assert!(d.error.is_none() && d.loading);
    // while wf-2 loads, an operation reaches no workflow
    app.handle_key(KeyCode::Char('t'));
    assert!(app.handle_key(KeyCode::Enter).is_none());
}

#[test]
fn failed_detail_load_keeps_no_workflow() {
    let mut app = on_detail();
    assert!(app.workflow_detail_state.workflow.is_some());
    app.apply_result(AppResult::WorkflowDetailError("gone".to_string()), 2);
    let d = &app.workflow_detail_state;
    assert!(d.workflow.is_none() && d.history.is_empty() && d.selected.is_none());
    assert_eq!(d.error.as_deref(), Some("gone"));
    app.handle_key(KeyCode::Char('x'));
    assert!(app.handle_key(KeyCode::Enter).is_none());
}

#[test]
fn cancel_dialog_takes_no_text() {
    let mut app = on_detail();
    app.handle_key(KeyCode::Char('x'));
    app.handle_key(KeyCode::Char('a'));
    app.handle_key(KeyCode::Backspace);
    assert_eq!(app.workflow_detail_state.dialog_input, "");
    assert_eq!(app.workflow_detail_state.show_dialog, Some(WorkflowOperation::Cancel));
    assert!(matches!(app.handle_key(KeyCode::Enter), Some(AppCommand::CancelWorkflow(_, _))));
}

#[test]
fn reloaded_detail_selects_first_event() {
    let mut app = on_detail();
    let ev = |id: i64| tuiporal::records::HistoryEvent { event_id: id, event_type: 1, event_time: None, attributes: vec![] };
    app.apply_result(AppResult::WorkflowDetailLoaded { workflow: record("wf-1"), history: vec![ev(1), ev(2), ev(3)] }, 2);
    app.handle_key(KeyCode::Down);
    app.handle_key(KeyCode::Down);
    assert_eq!(app.workflow_detail_state.selected, Some(2));
    app.apply_result(AppResult::WorkflowDetailLoaded { workflow: record("wf-1"), history: vec![ev(1)] }, 3);
    assert_eq!(app.workflow_detail_state.selected, Some(0));
}
