use vstd::prelude::*;
use crate::records::{HistoryEvent, NamespaceDescription, WorkflowExecutionInfo};

verus! {

/// A request from the render loop to the worker. Each one is answered by
/// exactly one `AppResult`.
pub enum AppCommand {
    /// Load the first page of workflows for a query.
    RefreshWorkflows(String),
    /// Load the page that a continuation token points at, for a query.
    LoadNextPage(String, Vec<u8>),
    /// Go back a page; the worker replays the query from its first page.
    LoadPreviousPage(String),
    /// Load a workflow's metadata and history: workflow id, run id.
    ViewWorkflowDetail(String, String),
    RefreshNamespaces,
    SwitchNamespace(String),
    /// Workflow id, run id, reason.
    TerminateWorkflow(String, String, String),
    /// Workflow id, run id.
    CancelWorkflow(String, String),
    /// Workflow id, run id, signal name.
    SignalWorkflow(String, String, String),
}

/// The mathematical content of an `AppCommand`.
pub enum CommandView {
    RefreshWorkflows(Seq<char>),
    LoadNextPage(Seq<char>, Seq<u8>),
    LoadPreviousPage(Seq<char>),
    ViewWorkflowDetail(Seq<char>, Seq<char>),
    RefreshNamespaces,
    SwitchNamespace(Seq<char>),
    TerminateWorkflow(Seq<char>, Seq<char>, Seq<char>),
    CancelWorkflow(Seq<char>, Seq<char>),
    SignalWorkflow(Seq<char>, Seq<char>, Seq<char>),
}

impl View for AppCommand {
    type V = CommandView;

    open spec fn view(&self) -> CommandView {
        match self {
            AppCommand::RefreshWorkflows(q) => CommandView::RefreshWorkflows(q@),
            AppCommand::LoadNextPage(q, t) => CommandView::LoadNextPage(q@, t@),
            AppCommand::LoadPreviousPage(q) => CommandView::LoadPreviousPage(q@),
            AppCommand::ViewWorkflowDetail(w, r) => CommandView::ViewWorkflowDetail(w@, r@),
            AppCommand::RefreshNamespaces => CommandView::RefreshNamespaces,
            AppCommand::SwitchNamespace(n) => CommandView::SwitchNamespace(n@),
            AppCommand::TerminateWorkflow(w, r, why) => CommandView::TerminateWorkflow(
                w@,
                r@,
                why@,
            ),
            AppCommand::CancelWorkflow(w, r) => CommandView::CancelWorkflow(w@, r@),
            AppCommand::SignalWorkflow(w, r, s) => CommandView::SignalWorkflow(w@, r@, s@),
        }
    }
}

/// The view of an optional command.
pub open spec fn command_view(c: Option<AppCommand>) -> Option<CommandView> {
    match c {
        Some(c) => Some(c@),
        None => None,
    }
}

/// The worker's answer to one `AppCommand`.
pub enum AppResult {
    WorkflowsLoaded { workflows: Vec<WorkflowExecutionInfo>, next_page_token: Vec<u8> },
    WorkflowsError(String),
    WorkflowDetailLoaded { workflow: WorkflowExecutionInfo, history: Vec<HistoryEvent> },
    WorkflowDetailError(String),
    NamespacesLoaded { namespaces: Vec<NamespaceDescription> },
    NamespacesError(String),
    NamespaceSwitched { namespace: String },
    /// A description of the operation that succeeded.
    WorkflowOperationSuccess(String),
    WorkflowOperationError(String),
}

/// Whether `r` is of the kind that answers `c`: a page or a page failure for a
/// list load, a detail or its failure for a detail load, and so on.
pub open spec fn answers(c: AppCommand, r: AppResult) -> bool {
    match c {
        AppCommand::RefreshWorkflows(_)
        | AppCommand::LoadNextPage(_, _)
        | AppCommand::LoadPreviousPage(_) => r is WorkflowsLoaded || r is WorkflowsError,
        AppCommand::ViewWorkflowDetail(_, _) => r is WorkflowDetailLoaded
            || r is WorkflowDetailError,
        AppCommand::RefreshNamespaces => r is NamespacesLoaded || r is NamespacesError,
        AppCommand::SwitchNamespace(_) => r is NamespaceSwitched,
        AppCommand::TerminateWorkflow(_, _, _)
        | AppCommand::CancelWorkflow(_, _)
        | AppCommand::SignalWorkflow(_, _, _) => r is WorkflowOperationSuccess
            || r is WorkflowOperationError,
    }
}

} // verus!
