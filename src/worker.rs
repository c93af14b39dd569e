use vstd::prelude::*;
use crate::command::{AppCommand, AppResult};
use crate::records::{HistoryEvent, NamespaceDescription, WorkflowExecutionInfo};

verus! {

/// Rows asked for per page of workflows or namespaces.
pub const PAGE_SIZE: i32 = 50;

/// Events asked for per page of history.
pub const HISTORY_PAGE_SIZE: i32 = 100;

/// A listing of workflows in a namespace.
pub struct ListRequest {
    pub namespace: String,
    pub page_size: i32,
    pub page_token: Vec<u8>,
    pub query: String,
}

/// A page of one workflow run's history.
pub struct HistoryRequest {
    pub namespace: String,
    pub workflow_id: String,
    pub run_id: String,
    pub page_size: i32,
    pub page_token: Vec<u8>,
}

/// The workflow run an operation acts on.
pub struct Target {
    pub namespace: String,
    pub workflow_id: String,
    pub run_id: String,
}

/// The remote work that answers one command.
pub enum RemotePlan {
    ListWorkflows(ListRequest),
    /// A lookup of the workflow's metadata, then its history.
    Detail(ListRequest, HistoryRequest),
    /// Page size and continuation token.
    ListNamespaces(i32, Vec<u8>),
    /// No remote call: later requests go to this namespace.
    SwitchNamespace(String),
    /// The run and the reason.
    Terminate(Target, String),
    Cancel(Target),
    /// The run and the signal name.
    Signal(Target, String),
}

/// What the remote calls of a plan returned; a failure carries its cause.
pub enum RemoteOutcome {
    /// Rows and the next continuation token.
    Page(Result<(Vec<WorkflowExecutionInfo>, Vec<u8>), String>),
    /// The metadata lookup's rows, and the history, which the service may omit.
    Detail(Result<Vec<WorkflowExecutionInfo>, String>, Result<Option<Vec<HistoryEvent>>, String>),
    Namespaces(Result<Vec<NamespaceDescription>, String>),
    Switched,
    Acknowledged(Result<(), String>),
}

/// The query that finds one workflow by id.
pub open spec fn id_query(workflow_id: Seq<char>) -> Seq<char> {
    "WorkflowId = '"@ + workflow_id + "'"@
}

pub open spec fn lists(r: ListRequest, ns: Seq<char>, size: i32, token: Seq<u8>, query: Seq<char>) -> bool {
    r.namespace@ == ns && r.page_size == size && r.page_token@ == token && r.query@ == query
}

pub open spec fn targets(t: Target, ns: Seq<char>, w: Seq<char>, run: Seq<char>) -> bool {
    t.namespace@ == ns && t.workflow_id@ == w && t.run_id@ == run
}

/// The plan that answers `c` when requests go to namespace `ns`.
pub open spec fn planned(ns: Seq<char>, c: AppCommand, p: RemotePlan) -> bool {
    match c {
        AppCommand::RefreshWorkflows(q) => p matches RemotePlan::ListWorkflows(r) && lists(
            r,
            ns,
            PAGE_SIZE,
            Seq::empty(),
            q@,
        ),
        AppCommand::LoadNextPage(q, t) => p matches RemotePlan::ListWorkflows(r) && lists(
            r,
            ns,
            PAGE_SIZE,
            t@,
            q@,
        ),
        AppCommand::LoadPreviousPage(q) => p matches RemotePlan::ListWorkflows(r) && lists(
            r,
            ns,
            PAGE_SIZE,
            Seq::empty(),
            q@,
        ),
        AppCommand::ViewWorkflowDetail(w, run) => p matches RemotePlan::Detail(l, h) && lists(
            l,
            ns,
            1,
            Seq::empty(),
            id_query(w@),
        ) && h.namespace@ == ns && h.workflow_id@ == w@ && h.run_id@ == run@ && h.page_size
            == HISTORY_PAGE_SIZE && h.page_token@.len() == 0,
        AppCommand::RefreshNamespaces => p matches RemotePlan::ListNamespaces(size, t) && size
            == PAGE_SIZE && t@.len() == 0,
        AppCommand::SwitchNamespace(n) => p matches RemotePlan::SwitchNamespace(m) && m@ == n@,
        AppCommand::TerminateWorkflow(w, run, why) => p matches RemotePlan::Terminate(t, reason)
            && targets(t, ns, w@, run@) && reason@ == why@,
        AppCommand::CancelWorkflow(w, run) => p matches RemotePlan::Cancel(t) && targets(
            t,
            ns,
            w@,
            run@,
        ),
        AppCommand::SignalWorkflow(w, run, s) => p matches RemotePlan::Signal(t, name) && targets(
            t,
            ns,
            w@,
            run@,
        ) && name@ == s@,
    }
}

/// Whether a record is the placeholder that stands for missing metadata.
pub open spec fn is_placeholder(w: WorkflowExecutionInfo) -> bool {
    w.execution is None && w.workflow_type is None && w.status == 0 && w.start_time is None
        && w.close_time is None && w.task_queue@.len() == 0 && w.history_length == 0
}

/// The prefix of the message for a failed listing, by the command that asked.
pub open spec fn list_failure_prefix(c: AppCommand) -> Seq<char> {
    match c {
        AppCommand::LoadNextPage(_, _) => "Failed to load next page: "@,
        AppCommand::LoadPreviousPage(_) => "Failed to load previous page: "@,
        _ => "Failed to load workflows: "@,
    }
}

/// The message for a successful operation.
pub open spec fn success_text(c: AppCommand) -> Seq<char> {
    match c {
        AppCommand::TerminateWorkflow(w, _, _) => "Workflow "@ + w@ + " terminated successfully"@,
        AppCommand::CancelWorkflow(w, _) => "Workflow "@ + w@ + " cancel requested successfully"@,
        AppCommand::SignalWorkflow(w, _, s) => "Signal '"@ + s@ + "' sent to workflow "@ + w@
            + " successfully"@,
        _ => Seq::empty(),
    }
}

/// The prefix of the message for a failed operation.
pub open spec fn operation_failure_prefix(c: AppCommand) -> Seq<char> {
    match c {
        AppCommand::TerminateWorkflow(_, _, _) => "Failed to terminate workflow: "@,
        AppCommand::CancelWorkflow(_, _) => "Failed to cancel workflow: "@,
        _ => "Failed to signal workflow: "@,
    }
}

/// The cause given when an outcome is not of the kind the command's plan yields.
pub open spec fn mismatch_cause() -> Seq<char> {
    "the reply does not match the request"@
}

/// The result that answers `c` given the outcome `o` of its plan.
pub open spec fn answered(c: AppCommand, o: RemoteOutcome, r: AppResult) -> bool {
    match c {
        AppCommand::RefreshWorkflows(_)
        | AppCommand::LoadNextPage(_, _)
        | AppCommand::LoadPreviousPage(_) => match o {
            RemoteOutcome::Page(Ok((ws, t))) => r == AppResult::WorkflowsLoaded {
                workflows: ws,
                next_page_token: t,
            },
            RemoteOutcome::Page(Err(e)) => r matches AppResult::WorkflowsError(m) && m@
                == list_failure_prefix(c) + e@,
            _ => r matches AppResult::WorkflowsError(m) && m@ == list_failure_prefix(c)
                + mismatch_cause(),
        },
        AppCommand::ViewWorkflowDetail(_, _) => match o {
            RemoteOutcome::Detail(lookup, Ok(history)) => r matches AppResult::WorkflowDetailLoaded {
                workflow,
                history: events,
            } && (match lookup {
                Ok(ws) if ws@.len() > 0 => workflow == ws@[0],
                _ => is_placeholder(workflow),
            }) && (match history {
                Some(h) => events == h,
                None => events@.len() == 0,
            }),
            RemoteOutcome::Detail(_, Err(e)) => r matches AppResult::WorkflowDetailError(m) && m@
                == "Failed to load workflow detail: "@ + e@,
            _ => r matches AppResult::WorkflowDetailError(m) && m@
                == "Failed to load workflow detail: "@ + mismatch_cause(),
        },
        AppCommand::RefreshNamespaces => match o {
            RemoteOutcome::Namespaces(Ok(ns)) => r == AppResult::NamespacesLoaded { namespaces: ns },
            RemoteOutcome::Namespaces(Err(e)) => r matches AppResult::NamespacesError(m) && m@
                == "Failed to load namespaces: "@ + e@,
            _ => r matches AppResult::NamespacesError(m) && m@ == "Failed to load namespaces: "@
                + mismatch_cause(),
        },
        AppCommand::SwitchNamespace(n) => r matches AppResult::NamespaceSwitched { namespace }
            && namespace@ == n@,
        AppCommand::TerminateWorkflow(_, _, _)
        | AppCommand::CancelWorkflow(_, _)
        | AppCommand::SignalWorkflow(_, _, _) => match o {
            RemoteOutcome::Acknowledged(Ok(())) => r matches AppResult::WorkflowOperationSuccess(m)
                && m@ == success_text(c),
            RemoteOutcome::Acknowledged(Err(e)) => r matches AppResult::WorkflowOperationError(m)
                && m@ == operation_failure_prefix(c) + e@,
            _ => r matches AppResult::WorkflowOperationError(m) && m@ == operation_failure_prefix(c)
                + mismatch_cause(),
        },
    }
}

/// The outcome of plan `p` when every remote call it makes fails with `cause`;
/// a namespace switch makes no call.
pub open spec fn all_failed(p: RemotePlan, cause: Seq<char>, o: RemoteOutcome) -> bool {
    match p {
        RemotePlan::ListWorkflows(_) => o matches RemoteOutcome::Page(Err(e)) && e@ == cause,
        RemotePlan::Detail(_, _) => o matches RemoteOutcome::Detail(Err(e1), Err(e2)) && e1@ == cause
            && e2@ == cause,
        RemotePlan::ListNamespaces(_, _) => o matches RemoteOutcome::Namespaces(Err(e)) && e@
            == cause,
        RemotePlan::SwitchNamespace(_) => o is Switched,
        RemotePlan::Terminate(_, _) | RemotePlan::Cancel(_) | RemotePlan::Signal(_, _) => (
        o matches RemoteOutcome::Acknowledged(Err(e)) && e@ == cause),
    }
}

/// The worker's own state: the namespace its requests go to.
pub struct Worker {
    pub namespace: String,
}

fn concat3(a: &str, b: &str, c: &str) -> (r: String)
    ensures
        r@ == a@ + b@ + c@,
{
    String::from_str(a).concat(b).concat(c)
}

impl Worker {
    pub fn new(namespace: String) -> (r: Self)
        ensures
            r.namespace == namespace,
    {
        Worker { namespace }
    }

    /// The remote work that answers `cmd`.
    pub fn plan(&self, cmd: &AppCommand) -> (p: RemotePlan)
        ensures
            planned(self.namespace@, *cmd, p),
    {
        let ns = self.namespace.clone();
        match cmd {
            AppCommand::RefreshWorkflows(q) | AppCommand::LoadPreviousPage(q) => {
                RemotePlan::ListWorkflows(
                    ListRequest {
                        namespace: ns,
                        page_size: PAGE_SIZE,
                        page_token: Vec::new(),
                        query: q.clone(),
                    },
                )
            },
            AppCommand::LoadNextPage(q, t) => {
                RemotePlan::ListWorkflows(
                    ListRequest {
                        namespace: ns,
                        page_size: PAGE_SIZE,
                        page_token: t.clone(),
                        query: q.clone(),
                    },
                )
            },
            AppCommand::ViewWorkflowDetail(w, run) => {
                let lookup = ListRequest {
                    namespace: ns.clone(),
                    page_size: 1,
                    page_token: Vec::new(),
                    query: concat3("WorkflowId = '", w.as_str(), "'"),
                };
                let history = HistoryRequest {
                    namespace: ns,
                    workflow_id: w.clone(),
                    run_id: run.clone(),
                    page_size: HISTORY_PAGE_SIZE,
                    page_token: Vec::new(),
                };
                RemotePlan::Detail(lookup, history)
            },
            AppCommand::RefreshNamespaces => RemotePlan::ListNamespaces(PAGE_SIZE, Vec::new()),
            AppCommand::SwitchNamespace(n) => RemotePlan::SwitchNamespace(n.clone()),
            AppCommand::TerminateWorkflow(w, run, why) => RemotePlan::Terminate(
                Target { namespace: ns, workflow_id: w.clone(), run_id: run.clone() },
                why.clone(),
            ),
            AppCommand::CancelWorkflow(w, run) => RemotePlan::Cancel(
                Target { namespace: ns, workflow_id: w.clone(), run_id: run.clone() },
            ),
            AppCommand::SignalWorkflow(w, run, s) => RemotePlan::Signal(
                Target { namespace: ns, workflow_id: w.clone(), run_id: run.clone() },
                s.clone(),
            ),
        }
    }

    /// The one result that answers `cmd`, given what its plan's remote calls
    /// returned. A namespace switch takes effect for the plans that follow.
    pub fn complete(&mut self, cmd: AppCommand, outcome: RemoteOutcome) -> (r: AppResult)
        ensures
            answered(cmd, outcome, r),
            match cmd {
                AppCommand::SwitchNamespace(n) => final(self).namespace@ == n@,
                _ => final(self).namespace == old(self).namespace,
            },
    {
        match cmd {
            AppCommand::RefreshWorkflows(_)
            | AppCommand::LoadNextPage(_, _)
            | AppCommand::LoadPreviousPage(_) => {
                let prefix: &str = match cmd {
                    AppCommand::LoadNextPage(_, _) => "Failed to load next page: ",
                    AppCommand::LoadPreviousPage(_) => "Failed to load previous page: ",
                    _ => "Failed to load workflows: ",
                };
                match outcome {
                    RemoteOutcome::Page(Ok((ws, t))) => AppResult::WorkflowsLoaded {
                        workflows: ws,
                        next_page_token: t,
                    },
                    RemoteOutcome::Page(Err(e)) => AppResult::WorkflowsError(
                        String::from_str(prefix).concat(e.as_str()),
                    ),
                    _ => AppResult::WorkflowsError(
                        String::from_str(prefix).concat("the reply does not match the request"),
                    ),
                }
            },
            AppCommand::ViewWorkflowDetail(_, _) => {
                match outcome {
                    RemoteOutcome::Detail(lookup, Ok(history)) => {
                        let workflow = match lookup {
                            Ok(mut ws) => if ws.len() > 0 {
                                ws.remove(0)
                            } else {
                                WorkflowExecutionInfo::placeholder()
                            },
                            Err(_) => WorkflowExecutionInfo::placeholder(),
                        };
                        let events = match history {
                            Some(h) => h,
                            None => Vec::new(),
                        };
                        AppResult::WorkflowDetailLoaded { workflow, history: events }
                    },
                    RemoteOutcome::Detail(_, Err(e)) => AppResult::WorkflowDetailError(
                        String::from_str("Failed to load workflow detail: ").concat(e.as_str()),
                    ),
                    _ => AppResult::WorkflowDetailError(
                        String::from_str("Failed to load workflow detail: ").concat(
                            "the reply does not match the request",
                        ),
                    ),
                }
            },
            AppCommand::RefreshNamespaces => {
                match outcome {
                    RemoteOutcome::Namespaces(Ok(ns)) => AppResult::NamespacesLoaded {
                        namespaces: ns,
                    },
                    RemoteOutcome::Namespaces(Err(e)) => AppResult::NamespacesError(
                        String::from_str("Failed to load namespaces: ").concat(e.as_str()),
                    ),
                    _ => AppResult::NamespacesError(
                        String::from_str("Failed to load namespaces: ").concat(
                            "the reply does not match the request",
                        ),
                    ),
                }
            },
            AppCommand::SwitchNamespace(n) => {
                self.namespace = n.clone();
                AppResult::NamespaceSwitched { namespace: n }
            },
            AppCommand::TerminateWorkflow(_, _, _)
            | AppCommand::CancelWorkflow(_, _)
            | AppCommand::SignalWorkflow(_, _, _) => {
                let prefix: &str = match cmd {
                    AppCommand::TerminateWorkflow(_, _, _) => "Failed to terminate workflow: ",
                    AppCommand::CancelWorkflow(_, _) => "Failed to cancel workflow: ",
                    _ => "Failed to signal workflow: ",
                };
                match outcome {
                    RemoteOutcome::Acknowledged(Ok(())) => {
                        let message = match &cmd {
                            AppCommand::TerminateWorkflow(w, _, _) => concat3(
                                "Workflow ",
                                w.as_str(),
                                " terminated successfully",
                            ),
                            AppCommand::CancelWorkflow(w, _) => concat3(
                                "Workflow ",
                                w.as_str(),
                                " cancel requested successfully",
                            ),
                            AppCommand::SignalWorkflow(w, _, s) => {
                                let head = concat3("Signal '", s.as_str(), "' sent to workflow ");
                                head.concat(w.as_str()).concat(" successfully")
                            },
                            _ => String::new(),
                        };
                        AppResult::WorkflowOperationSuccess(message)
                    },
                    RemoteOutcome::Acknowledged(Err(e)) => AppResult::WorkflowOperationError(
                        String::from_str(prefix).concat(e.as_str()),
                    ),
                    _ => AppResult::WorkflowOperationError(
                        String::from_str(prefix).concat("the reply does not match the request"),
                    ),
                }
            },
        }
    }
}

/// What a plan yields when none of its remote calls can be made, for example
/// without a connection: each call fails with `cause`.
pub fn failed_outcome(plan: &RemotePlan, cause: &str) -> (o: RemoteOutcome)
    ensures
        all_failed(*plan, cause@, o),
{
    match plan {
        RemotePlan::ListWorkflows(_) => RemoteOutcome::Page(Err(String::from_str(cause))),
        RemotePlan::Detail(_, _) => RemoteOutcome::Detail(
            Err(String::from_str(cause)),
            Err(String::from_str(cause)),
        ),
        RemotePlan::ListNamespaces(_, _) => RemoteOutcome::Namespaces(Err(String::from_str(cause))),
        RemotePlan::SwitchNamespace(_) => RemoteOutcome::Switched,
        RemotePlan::Terminate(_, _) | RemotePlan::Cancel(_) | RemotePlan::Signal(_, _) => {
            RemoteOutcome::Acknowledged(Err(String::from_str(cause)))
        },
    }
}

} // verus!
