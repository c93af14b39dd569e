use vstd::prelude::*;
use crate::command::{AppCommand, CommandView};
use crate::list::{
    selection_after_load, selection_after_next, selection_after_previous, next_selection,
    previous_selection,
};
use crate::records::{HistoryEvent, WorkflowExecutionInfo};
use crate::text::{pop_char, push_char};

verus! {

/// An operation on a workflow that asks for confirmation in a dialog.
#[derive(Clone, Copy, Debug, PartialEq, Eq, Structural)]
pub enum WorkflowOperation {
    Terminate,
    Cancel,
    Signal,
}

/// The reason sent with a terminate request: the typed text, or a default.
pub open spec fn terminate_reason(input: Seq<char>) -> Seq<char> {
    if input.len() == 0 {
        "Terminated by user"@
    } else {
        input
    }
}

/// State of the workflow detail screen.
pub struct WorkflowDetailState {
    pub workflow: Option<WorkflowExecutionInfo>,
    /// The workflow's history, in the order the service returned it.
    pub history: Vec<HistoryEvent>,
    /// The highlighted event.
    pub selected: Option<usize>,
    pub loading: bool,
    pub error: Option<String>,
    /// The open confirmation dialog, if any.
    pub show_dialog: Option<WorkflowOperation>,
    pub dialog_input: String,
    /// The banner of an operation that succeeded; the next keystroke or the
    /// next result dismisses it.
    pub success_message: Option<String>,
    /// The banner of an operation that failed, dismissed the same way.
    pub failure_message: Option<String>,
    /// Whether the event detail overlay is open.
    pub show_event_detail: bool,
    pub event_detail_scroll_offset: u16,
}

impl WorkflowDetailState {
    /// The state of a screen that was never used.
    pub open spec fn fresh(&self) -> bool {
        &&& self.workflow is None
        &&& self.history@.len() == 0
        &&& self.selected is None
        &&& !self.loading && !self.show_event_detail
        &&& self.error is None && self.show_dialog is None && self.success_message is None
        &&& self.failure_message is None
        &&& self.dialog_input@.len() == 0
        &&& self.event_detail_scroll_offset == 0
    }

    /// The workflow id and run id that operations act on, when known.
    pub open spec fn target(&self) -> Option<(Seq<char>, Seq<char>)> {
        match self.workflow {
            Some(w) => match w.execution {
                Some(e) => Some((e.workflow_id@, e.run_id@)),
                None => None,
            },
            None => None,
        }
    }

    /// The command that confirming the open dialog sends, if any.
    pub open spec fn confirmed_command(&self) -> Option<CommandView> {
        match (self.show_dialog, self.target()) {
            (Some(op), Some((w, r))) => match op {
                WorkflowOperation::Terminate => Some(
                    CommandView::TerminateWorkflow(w, r, terminate_reason(self.dialog_input@)),
                ),
                WorkflowOperation::Cancel => Some(CommandView::CancelWorkflow(w, r)),
                WorkflowOperation::Signal => if self.dialog_input@.len() == 0 {
                    None
                } else {
                    Some(CommandView::SignalWorkflow(w, r, self.dialog_input@))
                },
            },
            _ => None,
        }
    }

    /// Whether confirming the open dialog fails local validation: a signal needs a name.
    pub open spec fn confirm_rejected(&self) -> bool {
        self.show_dialog == Some(WorkflowOperation::Signal) && self.dialog_input@.len() == 0
    }

    pub fn new() -> (r: Self)
        ensures
            r.fresh(),
    {
        WorkflowDetailState {
            workflow: None,
            history: Vec::new(),
            selected: None,
            loading: false,
            error: None,
            show_dialog: None,
            dialog_input: String::new(),
            success_message: None,
            failure_message: None,
            show_event_detail: false,
            event_detail_scroll_offset: 0,
        }
    }

    pub fn selected_event(&self) -> (r: Option<&HistoryEvent>)
        ensures
            match self.selected {
                Some(i) => if i < self.history@.len() {
                    r == Some(&self.history@[i as int])
                } else {
                    r is None
                },
                None => r is None,
            },
    {
        match self.selected {
            Some(i) => if i < self.history.len() {
                Some(&self.history[i])
            } else {
                None
            },
            None => None,
        }
    }

    pub fn select_next(&mut self)
        ensures
            *final(self) == (WorkflowDetailState {
                selected: selection_after_next(old(self).selected, old(self).history@.len() as int),
                ..*old(self)
            }),
    {
        self.selected = next_selection(self.selected, self.history.len());
    }

    pub fn select_previous(&mut self)
        ensures
            *final(self) == (WorkflowDetailState {
                selected: selection_after_previous(
                    old(self).selected,
                    old(self).history@.len() as int,
                ),
                ..*old(self)
            }),
    {
        self.selected = previous_selection(self.selected, self.history.len());
    }

    /// The screen while a workflow loads: nothing of an earlier workflow is
    /// kept, so no operation can reach it.
    pub open spec fn awaiting_load(&self) -> bool {
        &&& self.workflow is None
        &&& self.history@.len() == 0
        &&& self.selected is None
        &&& self.loading && !self.show_event_detail
        &&& self.error is None && self.show_dialog is None && self.success_message is None
        &&& self.failure_message is None
        &&& self.dialog_input@.len() == 0
        &&& self.event_detail_scroll_offset == 0
    }

    /// Starts loading a workflow, dropping whatever the screen showed before.
    pub fn start_loading(&mut self)
        ensures
            final(self).awaiting_load(),
    {
        *self = WorkflowDetailState::new();
        self.loading = true;
    }

    /// Applies a loaded detail: the record and history replace what was shown,
    /// and the first event is selected when there is one.
    pub fn apply_detail(&mut self, workflow: WorkflowExecutionInfo, history: Vec<HistoryEvent>)
        ensures
            *final(self) == (WorkflowDetailState {
                workflow: Some(workflow),
                history: history,
                loading: false,
                error: None,
                selected: selection_after_load(history@.len() as int),
                ..*old(self)
            }),
    {
        let empty = history.len() == 0;
        self.workflow = Some(workflow);
        self.history = history;
        self.loading = false;
        self.error = None;
        self.selected = if empty {
            None
        } else {
            Some(0)
        };
    }

    /// Applies a failed detail load: the error is shown, loading ends, and no
    /// workflow, history or selected event remains.
    pub fn apply_failure(&mut self, error: String)
        ensures
            final(self).history@.len() == 0,
            *final(self) == old(self).after_failure(error, final(self).history),
    {
        self.error = Some(error);
        self.loading = false;
        self.workflow = None;
        self.history = Vec::new();
        self.selected = None;
        self.show_event_detail = false;
        self.event_detail_scroll_offset = 0;
    }

    /// The state after a failed detail load, with `history` (empty) in place of the old one.
    pub open spec fn after_failure(self, error: String, history: Vec<HistoryEvent>) -> Self {
        WorkflowDetailState {
            error: Some(error),
            loading: false,
            workflow: None,
            history: history,
            selected: None,
            show_event_detail: false,
            event_detail_scroll_offset: 0,
            ..self
        }
    }

    /// Applies the answer to an operation: it shows a success or a failure
    /// banner in place of any earlier one, and closes the dialog.
    pub fn apply_operation_outcome(&mut self, outcome: Result<String, String>)
        ensures
            final(self).dialog_input@.len() == 0,
            match outcome {
                Ok(m) => *final(self) == (WorkflowDetailState {
                    success_message: Some(m),
                    failure_message: None,
                    show_dialog: None,
                    dialog_input: final(self).dialog_input,
                    ..*old(self)
                }),
                Err(e) => *final(self) == (WorkflowDetailState {
                    success_message: None,
                    failure_message: Some(e),
                    show_dialog: None,
                    dialog_input: final(self).dialog_input,
                    ..*old(self)
                }),
            },
    {
        match outcome {
            Ok(m) => {
                self.success_message = Some(m);
                self.failure_message = None;
            },
            Err(e) => {
                self.success_message = None;
                self.failure_message = Some(e);
            },
        }
        self.show_dialog = None;
        self.dialog_input = String::new();
    }

    /// Whether a banner is shown.
    pub open spec fn has_banner(&self) -> bool {
        self.success_message is Some || self.failure_message is Some
    }

    /// Opens the confirmation dialog of an operation, with empty input; the
    /// banner and the error are cleared.
    pub fn open_dialog(&mut self, op: WorkflowOperation)
        ensures
            final(self).dialog_input@.len() == 0,
            *final(self) == (WorkflowDetailState {
                show_dialog: Some(op),
                dialog_input: final(self).dialog_input,
                success_message: None,
                failure_message: None,
                error: None,
                ..*old(self)
            }),
    {
        self.show_dialog = Some(op);
        self.dialog_input = String::new();
        self.success_message = None;
        self.failure_message = None;
        self.error = None;
    }

    /// Types one character into the dialog.
    pub fn type_char(&mut self, c: char)
        ensures
            final(self).dialog_input@ == old(self).dialog_input@.push(c),
            *final(self) == (WorkflowDetailState {
                dialog_input: final(self).dialog_input,
                ..*old(self)
            }),
    {
        push_char(&mut self.dialog_input, c);
    }

    /// Erases the last character of the dialog input, if any.
    pub fn erase_char(&mut self)
        ensures
            old(self).dialog_input@.len() > 0 ==> final(self).dialog_input@
                == old(self).dialog_input@.drop_last(),
            old(self).dialog_input@.len() == 0 ==> final(self).dialog_input@
                == old(self).dialog_input@,
            *final(self) == (WorkflowDetailState {
                dialog_input: final(self).dialog_input,
                ..*old(self)
            }),
    {
        let _ = pop_char(&mut self.dialog_input);
    }

    /// Closes the dialog without acting.
    pub fn close_dialog(&mut self)
        ensures
            final(self).dialog_input@.len() == 0,
            *final(self) == (WorkflowDetailState {
                show_dialog: None,
                dialog_input: final(self).dialog_input,
                ..*old(self)
            }),
    {
        self.show_dialog = None;
        self.dialog_input = String::new();
    }

    /// Confirms the open dialog: a signal without a name records a validation
    /// error and sends nothing; otherwise the operation's command is sent when
    /// the workflow is known. The dialog closes in every case.
    pub fn confirm_dialog(&mut self) -> (cmd: Option<AppCommand>)
        ensures
            command_is(cmd, old(self).confirmed_command()),
            final(self).dialog_input@.len() == 0,
            old(self).confirm_rejected() ==> (final(self).error matches Some(e) && e@
                == "Signal name cannot be empty"@),
            *final(self) == (WorkflowDetailState {
                show_dialog: None,
                dialog_input: final(self).dialog_input,
                error: if old(self).confirm_rejected() {
                    final(self).error
                } else {
                    old(self).error
                },
                ..*old(self)
            }),
    {
        let mut cmd: Option<AppCommand> = None;
        let empty = self.dialog_input.as_str().is_empty();
        if self.show_dialog == Some(WorkflowOperation::Signal) && empty {
            self.error = Some(String::from_str("Signal name cannot be empty"));
        } else if let Some(op) = self.show_dialog {
            if let Some(w) = &self.workflow {
                if let Some(e) = &w.execution {
                    let workflow_id = e.workflow_id.clone();
                    let run_id = e.run_id.clone();
                    let input = self.dialog_input.clone();
                    cmd = match op {
                        WorkflowOperation::Terminate => {
                            let reason = if empty {
                                String::from_str("Terminated by user")
                            } else {
                                input
                            };
                            Some(AppCommand::TerminateWorkflow(workflow_id, run_id, reason))
                        },
                        WorkflowOperation::Cancel => Some(AppCommand::CancelWorkflow(workflow_id, run_id)),
                        WorkflowOperation::Signal => Some(
                            AppCommand::SignalWorkflow(workflow_id, run_id, input),
                        ),
                    };
                }
            }
        }
        self.show_dialog = None;
        self.dialog_input = String::new();
        cmd
    }

    /// Dismisses the banner, whichever it is.
    pub fn dismiss_message(&mut self)
        ensures
            *final(self) == (WorkflowDetailState {
                success_message: None,
                failure_message: None,
                ..*old(self)
            }),
    {
        self.success_message = None;
        self.failure_message = None;
    }

    /// Opens the event detail overlay at its top when an event is selected.
    pub fn open_event_detail(&mut self)
        ensures
            (old(self).selected matches Some(i) && i < old(self).history@.len()) ==> *final(self)
                == (WorkflowDetailState {
                show_event_detail: true,
                event_detail_scroll_offset: 0,
                ..*old(self)
            }),
            !(old(self).selected matches Some(i) && i < old(self).history@.len()) ==> *final(self)
                == *old(self),
    {
        if self.selected_event().is_some() {
            self.event_detail_scroll_offset = 0;
            self.show_event_detail = true;
        }
    }

    /// Closes the event detail overlay and resets its scroll.
    pub fn close_event_detail(&mut self)
        ensures
            *final(self) == (WorkflowDetailState {
                show_event_detail: false,
                event_detail_scroll_offset: 0,
                ..*old(self)
            }),
    {
        self.show_event_detail = false;
        self.event_detail_scroll_offset = 0;
    }

    /// Scrolls the event detail overlay down, stopping at the largest offset.
    pub fn scroll_event_detail_down(&mut self, amount: u16)
        ensures
            *final(self) == (WorkflowDetailState {
                event_detail_scroll_offset: saturating_add_u16(
                    old(self).event_detail_scroll_offset,
                    amount,
                ),
                ..*old(self)
            }),
    {
        self.event_detail_scroll_offset = add_capped(self.event_detail_scroll_offset, amount);
    }

    /// Scrolls the event detail overlay up, stopping at zero.
    pub fn scroll_event_detail_up(&mut self, amount: u16)
        ensures
            *final(self) == (WorkflowDetailState {
                event_detail_scroll_offset: saturating_sub_u16(
                    old(self).event_detail_scroll_offset,
                    amount,
                ),
                ..*old(self)
            }),
    {
        self.event_detail_scroll_offset = sub_capped(self.event_detail_scroll_offset, amount);
    }
}

/// Whether an optional command has the given view.
pub open spec fn command_is(cmd: Option<AppCommand>, v: Option<CommandView>) -> bool {
    match (cmd, v) {
        (Some(c), Some(w)) => c@ == w,
        (None, None) => true,
        _ => false,
    }
}

/// `a + b`, or the largest `u16` where that overflows.
pub open spec fn saturating_add_u16(a: u16, b: u16) -> u16 {
    if a + b > u16::MAX {
        u16::MAX
    } else {
        (a + b) as u16
    }
}

/// `a - b`, or zero where that goes below zero.
pub open spec fn saturating_sub_u16(a: u16, b: u16) -> u16 {
    if a < b {
        0
    } else {
        (a - b) as u16
    }
}

pub fn add_capped(a: u16, b: u16) -> (r: u16)
    ensures
        r == saturating_add_u16(a, b),
{
    if a > u16::MAX - b {
        u16::MAX
    } else {
        a + b
    }
}

pub fn sub_capped(a: u16, b: u16) -> (r: u16)
    ensures
        r == saturating_sub_u16(a, b),
{
    if a < b {
        0
    } else {
        a - b
    }
}

} // verus!
