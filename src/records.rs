use vstd::prelude::*;
use crate::text::{decimal, push_int};

verus! {

/// Identity of one run of a workflow.
pub struct WorkflowExecution {
    pub workflow_id: String,
    pub run_id: String,
}

/// Seconds and nanoseconds since the Unix epoch, as the service sends them.
#[derive(Clone, Copy, PartialEq, Eq, Structural)]
pub struct Timestamp {
    pub seconds: i64,
    pub nanos: i32,
}

/// One workflow as listed by the service.
pub struct WorkflowExecutionInfo {
    pub execution: Option<WorkflowExecution>,
    pub workflow_type: Option<String>,
    /// The wire value of the execution status.
    pub status: i32,
    pub start_time: Option<Timestamp>,
    pub close_time: Option<Timestamp>,
    pub task_queue: String,
    pub history_length: i64,
}

impl WorkflowExecutionInfo {
    /// The placeholder record used when the service returned no metadata.
    pub fn placeholder() -> (r: Self)
        ensures
            r.execution is None,
            r.workflow_type is None,
            r.status == 0,
            r.start_time is None,
            r.close_time is None,
            r.task_queue@.len() == 0,
            r.history_length == 0,
    {
        WorkflowExecutionInfo {
            execution: None,
            workflow_type: None,
            status: 0,
            start_time: None,
            close_time: None,
            task_queue: String::new(),
            history_length: 0,
        }
    }
}

/// One entry of a workflow's history: its kind and a key/value view of its attributes.
pub struct HistoryEvent {
    pub event_id: i64,
    pub event_type: i32,
    pub event_time: Option<Timestamp>,
    pub attributes: Vec<(String, String)>,
}

/// What the service reports of one namespace.
pub struct NamespaceInfo {
    pub name: String,
    /// The wire value of the namespace state.
    pub state: i32,
    pub description: String,
    pub owner_email: String,
}

/// One entry of the namespace listing.
pub struct NamespaceDescription {
    pub namespace_info: Option<NamespaceInfo>,
}

/// Execution status of a workflow, decoded from its wire value.
#[derive(Clone, Copy, Debug, PartialEq, Eq, Structural)]
pub enum WorkflowExecutionStatus {
    Unspecified,
    Running,
    Completed,
    Failed,
    Canceled,
    Terminated,
    ContinuedAsNew,
    TimedOut,
}

/// Decoding of a status wire value; unknown values read as `Unspecified`.
pub open spec fn status_of(v: i32) -> WorkflowExecutionStatus {
    if v == 1 {
        WorkflowExecutionStatus::Running
    } else if v == 2 {
        WorkflowExecutionStatus::Completed
    } else if v == 3 {
        WorkflowExecutionStatus::Failed
    } else if v == 4 {
        WorkflowExecutionStatus::Canceled
    } else if v == 5 {
        WorkflowExecutionStatus::Terminated
    } else if v == 6 {
        WorkflowExecutionStatus::ContinuedAsNew
    } else if v == 7 {
        WorkflowExecutionStatus::TimedOut
    } else {
        WorkflowExecutionStatus::Unspecified
    }
}

/// The short label of a status in the workflow table.
pub open spec fn status_label(s: WorkflowExecutionStatus) -> Seq<char> {
    match s {
        WorkflowExecutionStatus::Running => "Running"@,
        WorkflowExecutionStatus::Completed => "Completed"@,
        WorkflowExecutionStatus::Failed => "Failed"@,
        WorkflowExecutionStatus::Canceled => "Canceled"@,
        WorkflowExecutionStatus::Terminated => "Terminated"@,
        WorkflowExecutionStatus::ContinuedAsNew => "Continued"@,
        WorkflowExecutionStatus::TimedOut => "Timed Out"@,
        WorkflowExecutionStatus::Unspecified => "Unknown"@,
    }
}

impl WorkflowExecutionStatus {
    pub fn from_wire(v: i32) -> (r: Self)
        ensures
            r == status_of(v),
    {
        if v == 1 {
            WorkflowExecutionStatus::Running
        } else if v == 2 {
            WorkflowExecutionStatus::Completed
        } else if v == 3 {
            WorkflowExecutionStatus::Failed
        } else if v == 4 {
            WorkflowExecutionStatus::Canceled
        } else if v == 5 {
            WorkflowExecutionStatus::Terminated
        } else if v == 6 {
            WorkflowExecutionStatus::ContinuedAsNew
        } else if v == 7 {
            WorkflowExecutionStatus::TimedOut
        } else {
            WorkflowExecutionStatus::Unspecified
        }
    }
}

/// `Unknown(<n>)`, the label of a wire value with no name.
pub open spec fn unknown_label(n: i32) -> Seq<char> {
    "Unknown("@ + decimal(n as int) + ")"@
}

fn unknown_text(n: i32) -> (r: String)
    ensures
        r@ == unknown_label(n),
{
    let mut s = String::from_str("Unknown(");
    push_int(&mut s, n);
    let r = s.concat(")");
    r
}

/// The name of a history event kind, for the kinds that have one.
pub open spec fn event_type_known(t: i32) -> Option<Seq<char>> {
    match t {
        1 => Some("WorkflowExecutionStarted"@),
        2 => Some("WorkflowExecutionCompleted"@),
        3 => Some("WorkflowExecutionFailed"@),
        4 => Some("WorkflowExecutionTimedOut"@),
        5 => Some("WorkflowTaskScheduled"@),
        6 => Some("WorkflowTaskStarted"@),
        7 => Some("WorkflowTaskCompleted"@),
        8 => Some("WorkflowTaskTimedOut"@),
        9 => Some("WorkflowTaskFailed"@),
        10 => Some("ActivityTaskScheduled"@),
        11 => Some("ActivityTaskStarted"@),
        12 => Some("ActivityTaskCompleted"@),
        13 => Some("ActivityTaskFailed"@),
        14 => Some("ActivityTaskTimedOut"@),
        15 => Some("ActivityTaskCancelRequested"@),
        16 => Some("ActivityTaskCanceled"@),
        17 => Some("TimerStarted"@),
        18 => Some("TimerFired"@),
        19 => Some("TimerCanceled"@),
        20 => Some("WorkflowExecutionCancelRequested"@),
        21 => Some("WorkflowExecutionCanceled"@),
        22 => Some("RequestCancelExternalWorkflowExecutionInitiated"@),
        23 => Some("RequestCancelExternalWorkflowExecutionFailed"@),
        24 => Some("ExternalWorkflowExecutionCancelRequested"@),
        25 => Some("MarkerRecorded"@),
        26 => Some("WorkflowExecutionSignaled"@),
        27 => Some("WorkflowExecutionTerminated"@),
        28 => Some("WorkflowExecutionContinuedAsNew"@),
        29 => Some("StartChildWorkflowExecutionInitiated"@),
        30 => Some("StartChildWorkflowExecutionFailed"@),
        31 => Some("ChildWorkflowExecutionStarted"@),
        32 => Some("ChildWorkflowExecutionCompleted"@),
        33 => Some("ChildWorkflowExecutionFailed"@),
        34 => Some("ChildWorkflowExecutionCanceled"@),
        35 => Some("ChildWorkflowExecutionTimedOut"@),
        36 => Some("ChildWorkflowExecutionTerminated"@),
        37 => Some("SignalExternalWorkflowExecutionInitiated"@),
        38 => Some("SignalExternalWorkflowExecutionFailed"@),
        39 => Some("ExternalWorkflowExecutionSignaled"@),
        40 => Some("UpsertWorkflowSearchAttributes"@),
        _ => None,
    }
}

/// The label shown for a history event kind.
pub open spec fn event_type_label(t: i32) -> Seq<char> {
    match event_type_known(t) {
        Some(name) => name,
        None => unknown_label(t),
    }
}

pub fn get_event_type_name(event_type: i32) -> (r: String)
    ensures
        r@ == event_type_label(event_type),
{
    match event_type {
        1 => String::from_str("WorkflowExecutionStarted"),
        2 => String::from_str("WorkflowExecutionCompleted"),
        3 => String::from_str("WorkflowExecutionFailed"),
        4 => String::from_str("WorkflowExecutionTimedOut"),
        5 => String::from_str("WorkflowTaskScheduled"),
        6 => String::from_str("WorkflowTaskStarted"),
        7 => String::from_str("WorkflowTaskCompleted"),
        8 => String::from_str("WorkflowTaskTimedOut"),
        9 => String::from_str("WorkflowTaskFailed"),
        10 => String::from_str("ActivityTaskScheduled"),
        11 => String::from_str("ActivityTaskStarted"),
        12 => String::from_str("ActivityTaskCompleted"),
        13 => String::from_str("ActivityTaskFailed"),
        14 => String::from_str("ActivityTaskTimedOut"),
        15 => String::from_str("ActivityTaskCancelRequested"),
        16 => String::from_str("ActivityTaskCanceled"),
        17 => String::from_str("TimerStarted"),
        18 => String::from_str("TimerFired"),
        19 => String::from_str("TimerCanceled"),
        20 => String::from_str("WorkflowExecutionCancelRequested"),
        21 => String::from_str("WorkflowExecutionCanceled"),
        22 => String::from_str("RequestCancelExternalWorkflowExecutionInitiated"),
        23 => String::from_str("RequestCancelExternalWorkflowExecutionFailed"),
        24 => String::from_str("ExternalWorkflowExecutionCancelRequested"),
        25 => String::from_str("MarkerRecorded"),
        26 => String::from_str("WorkflowExecutionSignaled"),
        27 => String::from_str("WorkflowExecutionTerminated"),
        28 => String::from_str("WorkflowExecutionContinuedAsNew"),
        29 => String::from_str("StartChildWorkflowExecutionInitiated"),
        30 => String::from_str("StartChildWorkflowExecutionFailed"),
        31 => String::from_str("ChildWorkflowExecutionStarted"),
        32 => String::from_str("ChildWorkflowExecutionCompleted"),
        33 => String::from_str("ChildWorkflowExecutionFailed"),
        34 => String::from_str("ChildWorkflowExecutionCanceled"),
        35 => String::from_str("ChildWorkflowExecutionTimedOut"),
        36 => String::from_str("ChildWorkflowExecutionTerminated"),
        37 => String::from_str("SignalExternalWorkflowExecutionInitiated"),
        38 => String::from_str("SignalExternalWorkflowExecutionFailed"),
        39 => String::from_str("ExternalWorkflowExecutionSignaled"),
        40 => String::from_str("UpsertWorkflowSearchAttributes"),
        _ => unknown_text(event_type),
    }
}

/// The label shown for a namespace state wire value.
pub open spec fn namespace_state_label(state: i32) -> Seq<char> {
    if state == 0 {
        "Unspecified"@
    } else if state == 1 {
        "Registered"@
    } else if state == 2 {
        "Deprecated"@
    } else if state == 3 {
        "Deleted"@
    } else {
        unknown_label(state)
    }
}

pub fn get_namespace_state(state: i32) -> (r: String)
    ensures
        r@ == namespace_state_label(state),
{
    if state == 0 {
        String::from_str("Unspecified")
    } else if state == 1 {
        String::from_str("Registered")
    } else if state == 2 {
        String::from_str("Deprecated")
    } else if state == 3 {
        String::from_str("Deleted")
    } else {
        unknown_text(state)
    }
}

/// The workflow id shown for a record: its own, or `Unknown`.
pub open spec fn workflow_id_label(w: WorkflowExecutionInfo) -> Seq<char> {
    match w.execution {
        Some(e) => e.workflow_id@,
        None => "Unknown"@,
    }
}

/// The workflow type shown for a record: its own, or `Unknown`.
pub open spec fn workflow_type_label(w: WorkflowExecutionInfo) -> Seq<char> {
    match w.workflow_type {
        Some(t) => t@,
        None => "Unknown"@,
    }
}

pub fn get_workflow_id(workflow: &WorkflowExecutionInfo) -> (r: String)
    ensures
        r@ == workflow_id_label(*workflow),
{
    match &workflow.execution {
        Some(e) => e.workflow_id.clone(),
        None => String::from_str("Unknown"),
    }
}

pub fn get_workflow_type(workflow: &WorkflowExecutionInfo) -> (r: String)
    ensures
        r@ == workflow_type_label(*workflow),
{
    match &workflow.workflow_type {
        Some(t) => t.clone(),
        None => String::from_str("Unknown"),
    }
}

pub fn get_workflow_status(workflow: &WorkflowExecutionInfo) -> (r: (WorkflowExecutionStatus, String))
    ensures
        r.0 == status_of(workflow.status),
        r.1@ == status_label(status_of(workflow.status)),
{
    let status = WorkflowExecutionStatus::from_wire(workflow.status);
    let label = match status {
        WorkflowExecutionStatus::Running => String::from_str("Running"),
        WorkflowExecutionStatus::Completed => String::from_str("Completed"),
        WorkflowExecutionStatus::Failed => String::from_str("Failed"),
        WorkflowExecutionStatus::Canceled => String::from_str("Canceled"),
        WorkflowExecutionStatus::Terminated => String::from_str("Terminated"),
        WorkflowExecutionStatus::ContinuedAsNew => String::from_str("Continued"),
        WorkflowExecutionStatus::TimedOut => String::from_str("Timed Out"),
        WorkflowExecutionStatus::Unspecified => String::from_str("Unknown"),
    };
    (status, label)
}

/// The text chrono gives for an instant, `YYYY-MM-DD HH:MM:SS UTC`; `None` where
/// chrono has no instant for the pair.
pub uninterp spec fn utc_text(seconds: i64, nanos: u32) -> Option<Seq<char>>;

/// Relies on chrono's `DateTime::<Utc>::from_timestamp`, which yields an instant for
/// every in-range second count with nanoseconds under one second, and on its
/// `format` with the pattern `%Y-%m-%d %H:%M:%S UTC`.
#[verifier::external_body]
fn format_utc(seconds: i64, nanos: u32) -> (r: Option<String>)
    ensures
        r is Some <==> utc_text(seconds, nanos) is Some,
        r is Some ==> utc_text(seconds, nanos) == Some(r->Some_0@),
        0 <= seconds <= 253402300799 && nanos < 1000000000 ==> r is Some,
{
    chrono::DateTime::from_timestamp(seconds, nanos).map(
        |dt: chrono::DateTime<chrono::Utc>| dt.format("%Y-%m-%d %H:%M:%S UTC").to_string(),
    )
}

/// The text shown for an optional instant, or `Unknown`.
pub open spec fn timestamp_label(t: Option<Timestamp>) -> Seq<char> {
    match t {
        Some(t) => match utc_text(t.seconds, t.nanos as u32) {
            Some(text) => text,
            None => "Unknown"@,
        },
        None => "Unknown"@,
    }
}

pub fn timestamp_text(t: Option<Timestamp>) -> (r: String)
    ensures
        r@ == timestamp_label(t),
{
    match t {
        Some(t) => match format_utc(t.seconds, t.nanos as u32) {
            Some(text) => text,
            None => String::from_str("Unknown"),
        },
        None => String::from_str("Unknown"),
    }
}

pub fn get_workflow_start_time(workflow: &WorkflowExecutionInfo) -> (r: String)
    ensures
        r@ == timestamp_label(workflow.start_time),
{
    timestamp_text(workflow.start_time)
}

} // verus!
