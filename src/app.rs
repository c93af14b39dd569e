use vstd::prelude::*;
use crate::command::{AppCommand, AppResult, CommandView};
use crate::config::{Config, ConnectionProfile};
use crate::detail::{
    command_is, saturating_add_u16, saturating_sub_u16, WorkflowDetailState, WorkflowOperation,
};
use crate::list::{
    filter_after, paging_restarted, search_submitted, selection_after_load,
    selection_after_next, selection_after_previous, turned_back, turned_forward, WorkflowListState,
};
use crate::screens::{selection_after_reload, HelpState, NamespaceListState, Screen};

verus! {

/// A keystroke, as the screens read it.
#[derive(Clone, Copy, Debug, PartialEq, Eq, Structural)]
pub enum KeyCode {
    Char(char),
    Enter,
    Esc,
    Backspace,
    Up,
    Down,
    Left,
    Right,
    PageUp,
    PageDown,
    Other,
}

/// The state of the connection to the service.
pub enum ConnectionStatus {
    Disconnected,
    Connecting,
    Connected,
    Error(String),
}

/// The dashboard session: every screen's state, which screen is shown, and
/// whether the loop goes on.
pub struct App {
    pub config: Config,
    pub running: bool,
    pub current_screen: Screen,
    pub workflow_list_state: WorkflowListState,
    pub workflow_detail_state: WorkflowDetailState,
    pub namespace_list_state: NamespaceListState,
    pub help_state: HelpState,
    pub connection_status: ConnectionStatus,
    pub current_namespace: String,
    /// Counts rendered frames, for animations.
    pub frame_count: u16,
}

pub open spec fn is_down(k: KeyCode) -> bool {
    k == KeyCode::Down || k == KeyCode::Char('j')
}

pub open spec fn is_up(k: KeyCode) -> bool {
    k == KeyCode::Up || k == KeyCode::Char('k')
}

pub open spec fn is_quit(k: KeyCode) -> bool {
    k == KeyCode::Char('q') || k == KeyCode::Esc
}

/// `new` differs from `old` in the workflow list at most.
pub open spec fn only_list(old: App, new: App) -> bool {
    new == (App { workflow_list_state: new.workflow_list_state, ..old })
}

/// `new` differs from `old` in the detail screen at most.
pub open spec fn only_detail(old: App, new: App) -> bool {
    new == (App { workflow_detail_state: new.workflow_detail_state, ..old })
}

/// `new` differs from `old` in the namespace list at most.
pub open spec fn only_namespaces(old: App, new: App) -> bool {
    new == (App { namespace_list_state: new.namespace_list_state, ..old })
}

/// Going to the namespace screen, which loads the namespaces when it has none
/// and none are loading.
pub open spec fn went_to_namespaces(old: App, new: App, cmd: Option<AppCommand>) -> bool {
    let ns = old.namespace_list_state;
    if ns.items@.len() == 0 && !ns.loading {
        &&& cmd matches Some(c) && c@ == CommandView::RefreshNamespaces
        &&& new == (App {
            current_screen: Screen::Namespaces,
            namespace_list_state: NamespaceListState { loading: true, ..ns },
            ..old
        })
    } else {
        cmd is None && new == (App { current_screen: Screen::Namespaces, ..old })
    }
}

/// The record under the cursor of the workflow list, if any.
pub open spec fn selected_record(l: WorkflowListState) -> Option<crate::records::WorkflowExecutionInfo> {
    match l.selected {
        Some(i) => if i < l.items@.len() {
            Some(l.items@[i as int])
        } else {
            None
        },
        None => None,
    }
}

/// A keystroke on the workflow list.
pub open spec fn workflows_key(old: App, new: App, key: KeyCode, cmd: Option<AppCommand>) -> bool {
    let l = old.workflow_list_state;
    let nl = new.workflow_list_state;
    if l.input_mode {
        match key {
            KeyCode::Char(c) => cmd is None && only_list(old, new) && nl.query@ == l.query@.push(c)
                && nl == (WorkflowListState { query: nl.query, ..l }),
            KeyCode::Backspace => cmd is None && only_list(old, new) && nl.query@ == (if l.query@.len()
                > 0 {
                l.query@.drop_last()
            } else {
                l.query@
            }) && nl == (WorkflowListState { query: nl.query, ..l }),
            KeyCode::Enter => only_list(old, new) && (cmd matches Some(c) && search_submitted(
                l,
                nl,
                c,
            )),
            KeyCode::Esc => cmd is None && new == (App {
                workflow_list_state: WorkflowListState { input_mode: false, ..l },
                ..old
            }),
            _ => cmd is None && new == old,
        }
    } else if is_quit(key) {
        cmd is None && new == (App { running: false, ..old })
    } else if is_down(key) {
        cmd is None && new == (App {
            workflow_list_state: WorkflowListState {
                selected: selection_after_next(l.selected, l.items@.len() as int),
                ..l
            },
            ..old
        })
    } else if is_up(key) {
        cmd is None && new == (App {
            workflow_list_state: WorkflowListState {
                selected: selection_after_previous(l.selected, l.items@.len() as int),
                ..l
            },
            ..old
        })
    } else {
        match key {
            KeyCode::Char('1') => cmd is None && new == (App {
                current_screen: Screen::Workflows,
                ..old
            }),
            KeyCode::Char('2') => went_to_namespaces(old, new, cmd),
            KeyCode::Char('?') => cmd is None && new == (App {
                current_screen: Screen::Help,
                help_state: HelpState { scroll_offset: 0 },
                ..old
            }),
            KeyCode::Char('/') => cmd is None && only_list(old, new) && nl.query@.len() == 0 && nl
                == (WorkflowListState { input_mode: true, query: nl.query, ..l }),
            KeyCode::Char('f') => only_list(old, new) && (cmd matches Some(c) && c@
                == CommandView::RefreshWorkflows(nl.query_view())) && paging_restarted(
                WorkflowListState { active_filter: filter_after(l.active_filter), ..l },
                nl,
            ),
            KeyCode::Char('c') => only_list(old, new) && (cmd matches Some(c) && c@
                == CommandView::RefreshWorkflows(Seq::empty())) && nl.query@.len() == 0
                && paging_restarted(
                WorkflowListState { active_filter: None, query: nl.query, ..l },
                nl,
            ),
            KeyCode::Char('a') => cmd is None && new == (App {
                workflow_list_state: WorkflowListState {
                    auto_refresh_enabled: !l.auto_refresh_enabled,
                    ..l
                },
                ..old
            }),
            KeyCode::Char('r') => only_list(old, new) && (cmd matches Some(c) && c@
                == CommandView::RefreshWorkflows(l.query_view())) && paging_restarted(l, nl),
            KeyCode::Char('n') | KeyCode::Right => only_list(old, new) && turned_forward(
                l,
                nl,
                cmd,
            ),
            KeyCode::Char('p') | KeyCode::Left => only_list(old, new) && turned_back(l, nl, cmd),
            KeyCode::Enter => match selected_record(l) {
                Some(w) if w.execution is Some => {
                    &&& cmd matches Some(c) && c@ == CommandView::ViewWorkflowDetail(
                        w.execution->Some_0.workflow_id@,
                        w.execution->Some_0.run_id@,
                    )
                    &&& new == (App {
                        current_screen: Screen::WorkflowDetail,
                        workflow_detail_state: new.workflow_detail_state,
                        ..old
                    })
                    &&& new.workflow_detail_state.awaiting_load()
                },
                _ => cmd is None && new == old,
            },
            _ => cmd is None && new == old,
        }
    }
}

/// A keystroke on the namespace list.
pub open spec fn namespaces_key(old: App, new: App, key: KeyCode, cmd: Option<AppCommand>) -> bool {
    let ns = old.namespace_list_state;
    if is_quit(key) || key == KeyCode::Char('1') {
        cmd is None && new == (App { current_screen: Screen::Workflows, ..old })
    } else if key == KeyCode::Char('2') {
        cmd is None && new == (App { current_screen: Screen::Namespaces, ..old })
    } else if is_down(key) {
        cmd is None && new == (App {
            namespace_list_state: NamespaceListState {
                selected: selection_after_next(ns.selected, ns.items@.len() as int),
                ..ns
            },
            ..old
        })
    } else if is_up(key) {
        cmd is None && new == (App {
            namespace_list_state: NamespaceListState {
                selected: selection_after_previous(ns.selected, ns.items@.len() as int),
                ..ns
            },
            ..old
        })
    } else if key == KeyCode::Char('r') {
        &&& cmd matches Some(c) && c@ == CommandView::RefreshNamespaces
        &&& new == (App { namespace_list_state: NamespaceListState { loading: true, ..ns }, ..old })
    } else if key == KeyCode::Enter {
        new == old && match ns.selected {
            Some(i) if i < ns.items@.len() && ns.items@[i as int].namespace_info is Some => (
            cmd matches Some(c) && c@ == CommandView::SwitchNamespace(
                ns.items@[i as int].namespace_info->Some_0.name@,
            )),
            _ => cmd is None,
        }
    } else {
        cmd is None && new == old
    }
}

/// A keystroke on the detail screen. The event overlay takes every key while
/// open; else a banner takes the one key that dismisses it; else an open
/// dialog takes every key.
pub open spec fn detail_key(old: App, new: App, key: KeyCode, cmd: Option<AppCommand>) -> bool {
    let d = old.workflow_detail_state;
    let nd = new.workflow_detail_state;
    if d.show_event_detail {
        cmd is None && new == (App {
            workflow_detail_state: if is_quit(key) {
                WorkflowDetailState { show_event_detail: false, event_detail_scroll_offset: 0, ..d }
            } else if is_down(key) {
                WorkflowDetailState {
                    event_detail_scroll_offset: saturating_add_u16(d.event_detail_scroll_offset, 1),
                    ..d
                }
            } else if is_up(key) {
                WorkflowDetailState {
                    event_detail_scroll_offset: saturating_sub_u16(d.event_detail_scroll_offset, 1),
                    ..d
                }
            } else if key == KeyCode::PageDown {
                WorkflowDetailState {
                    event_detail_scroll_offset: saturating_add_u16(d.event_detail_scroll_offset, 10),
                    ..d
                }
            } else if key == KeyCode::PageUp {
                WorkflowDetailState {
                    event_detail_scroll_offset: saturating_sub_u16(d.event_detail_scroll_offset, 10),
                    ..d
                }
            } else {
                d
            },
            ..old
        })
    } else if d.has_banner() {
        cmd is None && new == (App {
            workflow_detail_state: WorkflowDetailState {
                success_message: None,
                failure_message: None,
                ..d
            },
            ..old
        })
    } else if d.show_dialog is Some {
        match key {
            KeyCode::Char(_) if d.show_dialog == Some(WorkflowOperation::Cancel) => cmd is None
                && new == old,
            KeyCode::Backspace if d.show_dialog == Some(WorkflowOperation::Cancel) => cmd is None
                && new == old,
            KeyCode::Char(c) => cmd is None && only_detail(old, new) && nd.dialog_input@
                == d.dialog_input@.push(c) && nd == (WorkflowDetailState {
                dialog_input: nd.dialog_input,
                ..d
            }),
            KeyCode::Backspace => cmd is None && only_detail(old, new) && nd.dialog_input@ == (if d.dialog_input@.len()
                > 0 {
                d.dialog_input@.drop_last()
            } else {
                d.dialog_input@
            }) && nd == (WorkflowDetailState { dialog_input: nd.dialog_input, ..d }),
            KeyCode::Enter => {
                &&& only_detail(old, new)
                &&& command_is(cmd, d.confirmed_command())
                &&& nd.dialog_input@.len() == 0
                &&& d.confirm_rejected() ==> (nd.error matches Some(e) && e@
                    == "Signal name cannot be empty"@)
                &&& nd == (WorkflowDetailState {
                    show_dialog: None,
                    dialog_input: nd.dialog_input,
                    error: if d.confirm_rejected() {
                        nd.error
                    } else {
                        d.error
                    },
                    ..d
                })
            },
            KeyCode::Esc => cmd is None && only_detail(old, new) && nd.dialog_input@.len() == 0
                && nd == (WorkflowDetailState {
                show_dialog: None,
                dialog_input: nd.dialog_input,
                ..d
            }),
            _ => cmd is None && new == old,
        }
    } else if is_quit(key) || key == KeyCode::Char('1') {
        cmd is None && new == (App { current_screen: Screen::Workflows, ..old })
    } else if key == KeyCode::Char('2') {
        went_to_namespaces(old, new, cmd)
    } else if key == KeyCode::Char('t') || key == KeyCode::Char('x') || key == KeyCode::Char('s') {
        &&& cmd is None
        &&& only_detail(old, new)
        &&& nd.dialog_input@.len() == 0
        &&& nd == (WorkflowDetailState {
            show_dialog: Some(
                if key == KeyCode::Char('t') {
                    WorkflowOperation::Terminate
                } else if key == KeyCode::Char('x') {
                    WorkflowOperation::Cancel
                } else {
                    WorkflowOperation::Signal
                },
            ),
            dialog_input: nd.dialog_input,
            success_message: None,
            failure_message: None,
            error: None,
            ..d
        })
    } else if is_down(key) {
        cmd is None && new == (App {
            workflow_detail_state: WorkflowDetailState {
                selected: selection_after_next(d.selected, d.history@.len() as int),
                ..d
            },
            ..old
        })
    } else if is_up(key) {
        cmd is None && new == (App {
            workflow_detail_state: WorkflowDetailState {
                selected: selection_after_previous(d.selected, d.history@.len() as int),
                ..d
            },
            ..old
        })
    } else if key == KeyCode::Enter {
        cmd is None && new == (App {
            workflow_detail_state: if d.selected matches Some(i) && i < d.history@.len() {
                WorkflowDetailState { show_event_detail: true, event_detail_scroll_offset: 0, ..d }
            } else {
                d
            },
            ..old
        })
    } else {
        cmd is None && new == old
    }
}

/// A keystroke on the help screen.
pub open spec fn help_key(old: App, new: App, key: KeyCode, cmd: Option<AppCommand>) -> bool {
    let o = old.help_state.scroll_offset;
    &&& cmd is None
    &&& if is_quit(key) || key == KeyCode::Char('?') {
        new == (App { current_screen: Screen::Workflows, ..old })
    } else if is_down(key) {
        new == (App { help_state: HelpState { scroll_offset: saturating_add_u16(o, 1) }, ..old })
    } else if is_up(key) {
        new == (App { help_state: HelpState { scroll_offset: saturating_sub_u16(o, 1) }, ..old })
    } else if key == KeyCode::PageDown {
        new == (App { help_state: HelpState { scroll_offset: saturating_add_u16(o, 10) }, ..old })
    } else if key == KeyCode::PageUp {
        new == (App { help_state: HelpState { scroll_offset: saturating_sub_u16(o, 10) }, ..old })
    } else {
        new == old
    }
}

/// A keystroke, dispatched to the screen that is shown.
pub open spec fn key_handled(old: App, new: App, key: KeyCode, cmd: Option<AppCommand>) -> bool {
    match old.current_screen {
        Screen::Workflows => workflows_key(old, new, key, cmd),
        Screen::Namespaces => namespaces_key(old, new, key, cmd),
        Screen::WorkflowDetail => detail_key(old, new, key, cmd),
        Screen::Help => help_key(old, new, key, cmd),
    }
}

/// The session after result `r` arrived at time `now`, and the command it
/// sends. Every result first clears the detail screen's banner.
pub open spec fn result_applied(old: App, new: App, r: AppResult, now: u64, cmd: Option<AppCommand>) -> bool {
    let l = old.workflow_list_state;
    let d = WorkflowDetailState {
        success_message: None,
        failure_message: None,
        ..old.workflow_detail_state
    };
    let o = App { workflow_detail_state: d, ..old };
    let ns = old.namespace_list_state;
    match r {
        AppResult::WorkflowsLoaded { workflows, next_page_token } => cmd is None && new == (App {
            workflow_list_state: WorkflowListState {
                items: workflows,
                selected: selection_after_load(workflows@.len() as int),
                next_page_token: next_page_token,
                loading: false,
                error: None,
                last_refresh: Some(now),
                ..l
            },
            ..o
        }),
        AppResult::WorkflowsError(e) => cmd is None && new == (App {
            workflow_list_state: l.after_failure(e),
            ..o
        }),
        AppResult::WorkflowDetailLoaded { workflow, history } => cmd is None && new == (App {
            workflow_detail_state: WorkflowDetailState {
                workflow: Some(workflow),
                history: history,
                loading: false,
                error: None,
                selected: selection_after_load(history@.len() as int),
                ..d
            },
            ..o
        }),
        AppResult::WorkflowDetailError(e) => {
            &&& cmd is None
            &&& new.workflow_detail_state.history@.len() == 0
            &&& new == (App {
                workflow_detail_state: d.after_failure(e, new.workflow_detail_state.history),
                ..o
            })
        },
        AppResult::NamespacesLoaded { namespaces } => cmd is None && new == (App {
            namespace_list_state: NamespaceListState {
                items: namespaces,
                selected: selection_after_reload(ns.selected, namespaces@.len() as int),
                loading: false,
                error: None,
            },
            ..o
        }),
        AppResult::NamespacesError(e) => cmd is None && new == (App {
            namespace_list_state: NamespaceListState { error: Some(e), loading: false, ..ns },
            ..o
        }),
        AppResult::NamespaceSwitched { namespace } => {
            &&& cmd matches Some(c) && c@ == CommandView::RefreshWorkflows(l.query_view())
            &&& new == (App {
                current_namespace: namespace,
                current_screen: Screen::Workflows,
                workflow_list_state: WorkflowListState { loading: true, ..l },
                ..o
            })
        },
        AppResult::WorkflowOperationSuccess(m) => {
            &&& cmd is None
            &&& only_detail(old, new)
            &&& new.workflow_detail_state.dialog_input@.len() == 0
            &&& new.workflow_detail_state == (WorkflowDetailState {
                success_message: Some(m),
                show_dialog: None,
                dialog_input: new.workflow_detail_state.dialog_input,
                ..d
            })
        },
        AppResult::WorkflowOperationError(e) => {
            &&& cmd is None
            &&& only_detail(old, new)
            &&& new.workflow_detail_state.dialog_input@.len() == 0
            &&& new.workflow_detail_state == (WorkflowDetailState {
                failure_message: Some(e),
                show_dialog: None,
                dialog_input: new.workflow_detail_state.dialog_input,
                ..d
            })
        },
    }
}

/// The animation frame shown for a frame count.
pub open spec fn spinner_frame(count: u16) -> Seq<char> {
    let i = (count / 3) % 10;
    if i == 0 {
        "⠋"@
    } else if i == 1 {
        "⠙"@
    } else if i == 2 {
        "⠹"@
    } else if i == 3 {
        "⠸"@
    } else if i == 4 {
        "⠼"@
    } else if i == 5 {
        "⠴"@
    } else if i == 6 {
        "⠦"@
    } else if i == 7 {
        "⠧"@
    } else if i == 8 {
        "⠇"@
    } else {
        "⠏"@
    }
}

impl App {
    /// Both list screens keep their page counter and selection coherent.
    pub open spec fn well_formed(&self) -> bool {
        self.workflow_list_state.well_formed() && self.namespace_list_state.well_formed()
    }

    /// The namespace a session starts in: the active profile's, else `default`.
    pub open spec fn initial_namespace(config: Config) -> Seq<char> {
        match config.active_index() {
            Some(i) => config.profiles@[i].namespace@,
            None => "default"@,
        }
    }

    /// A session on the workflow list, not yet connected.
    pub fn new(config: Config) -> (r: Self)
        ensures
            r.config == config,
            r.running,
            r.current_screen == Screen::Workflows,
            r.connection_status is Disconnected,
            r.current_namespace@ == Self::initial_namespace(config),
            r.frame_count == 0,
            r.workflow_list_state.fresh(),
            r.workflow_detail_state.fresh(),
            r.namespace_list_state.fresh(),
            r.help_state.scroll_offset == 0,
            r.well_formed(),
    {
        let namespace = match config.get_active_profile() {
            Some(p) => p.namespace.clone(),
            None => String::from_str("default"),
        };
        App {
            config,
            running: true,
            current_screen: Screen::Workflows,
            workflow_list_state: WorkflowListState::new(),
            workflow_detail_state: WorkflowDetailState::new(),
            namespace_list_state: NamespaceListState::new(),
            help_state: HelpState::new(),
            connection_status: ConnectionStatus::Disconnected,
            current_namespace: namespace,
            frame_count: 0,
        }
    }

    /// The first command a session sends: a load of the unfiltered workflow list.
    pub fn initial_command(&self) -> (cmd: AppCommand)
        ensures
            cmd@ == CommandView::RefreshWorkflows(Seq::empty()),
    {
        AppCommand::RefreshWorkflows(String::new())
    }

    /// The profile to connect with: the active one, if there is one.
    pub fn start_connecting(&self) -> (r: Option<&ConnectionProfile>)
        ensures
            match self.config.active_index() {
                Some(i) => r == Some(&self.config.profiles@[i]),
                None => r is None,
            },
    {
        self.config.get_active_profile()
    }

    /// Records the outcome of connecting: `None` when there was no profile to
    /// connect with, else whether the connection was made.
    pub fn finish_connecting(&mut self, outcome: Option<Result<(), String>>)
        ensures
            match outcome {
                None => final(self).connection_status matches ConnectionStatus::Error(m) && m@
                    == "No active profile configured"@,
                Some(Ok(())) => final(self).connection_status is Connected,
                Some(Err(e)) => final(self).connection_status matches ConnectionStatus::Error(m)
                    && m@ == "Connection failed: "@ + e@,
            },
            *final(self) == (App { connection_status: final(self).connection_status, ..*old(self) }),
    {
        self.connection_status = match outcome {
            None => ConnectionStatus::Error(String::from_str("No active profile configured")),
            Some(Ok(())) => ConnectionStatus::Connected,
            Some(Err(e)) => ConnectionStatus::Error(
                String::from_str("Connection failed: ").concat(e.as_str()),
            ),
        };
    }

    /// Marks the session as connecting.
    pub fn mark_connecting(&mut self)
        ensures
            final(self).connection_status is Connecting,
            *final(self) == (App { connection_status: final(self).connection_status, ..*old(self) }),
    {
        self.connection_status = ConnectionStatus::Connecting;
    }

    pub fn spinner(&self) -> (r: &str)
        ensures
            r@ == spinner_frame(self.frame_count),
    {
        let i = (self.frame_count / 3) % 10;
        if i == 0 {
            "⠋"
        } else if i == 1 {
            "⠙"
        } else if i == 2 {
            "⠹"
        } else if i == 3 {
            "⠸"
        } else if i == 4 {
            "⠼"
        } else if i == 5 {
            "⠴"
        } else if i == 6 {
            "⠦"
        } else if i == 7 {
            "⠧"
        } else if i == 8 {
            "⠇"
        } else {
            "⠏"
        }
    }

    /// Counts one rendered frame, wrapping at the largest count.
    pub fn advance_frame(&mut self)
        ensures
            final(self).frame_count == (if old(self).frame_count == u16::MAX {
                0
            } else {
                old(self).frame_count + 1
            }),
            *final(self) == (App { frame_count: final(self).frame_count, ..*old(self) }),
    {
        self.frame_count = if self.frame_count == u16::MAX {
            0
        } else {
            self.frame_count + 1
        };
    }

    /// Fires the auto-refresh of the workflow list when it is shown and due at `now`.
    pub fn auto_refresh(&mut self, now: u64) -> (cmd: Option<AppCommand>)
        ensures
            old(self).current_screen == Screen::Workflows && old(self).workflow_list_state.refresh_due(
                now,
            ) ==> {
                &&& cmd matches Some(c) && c@ == CommandView::RefreshWorkflows(
                    old(self).workflow_list_state.query_view(),
                )
                &&& *final(self) == (App {
                    workflow_list_state: WorkflowListState {
                        loading: true,
                        ..old(self).workflow_list_state
                    },
                    ..*old(self)
                })
            },
            !(old(self).current_screen == Screen::Workflows
                && old(self).workflow_list_state.refresh_due(now)) ==> cmd is None && *final(self)
                == *old(self),
            old(self).well_formed() ==> final(self).well_formed(),
    {
        if self.current_screen == Screen::Workflows && self.workflow_list_state.should_refresh(now) {
            Some(self.workflow_list_state.start_auto_refresh())
        } else {
            None
        }
    }

    /// Applies one result from the worker, which arrived at `now`.
    pub fn apply_result(&mut self, result: AppResult, now: u64) -> (cmd: Option<AppCommand>)
        ensures
            result_applied(*old(self), *final(self), result, now, cmd),
            old(self).well_formed() ==> final(self).well_formed(),
    {
        self.workflow_detail_state.dismiss_message();
        match result {
            AppResult::WorkflowsLoaded { workflows, next_page_token } => {
                self.workflow_list_state.apply_page(workflows, next_page_token, now);
                None
            },
            AppResult::WorkflowsError(e) => {
                self.workflow_list_state.apply_failure(e);
                None
            },
            AppResult::WorkflowDetailLoaded { workflow, history } => {
                self.workflow_detail_state.apply_detail(workflow, history);
                None
            },
            AppResult::WorkflowDetailError(e) => {
                self.workflow_detail_state.apply_failure(e);
                None
            },
            AppResult::NamespacesLoaded { namespaces } => {
                self.namespace_list_state.apply_namespaces(namespaces);
                None
            },
            AppResult::NamespacesError(e) => {
                self.namespace_list_state.apply_failure(e);
                None
            },
            AppResult::NamespaceSwitched { namespace } => {
                self.current_namespace = namespace;
                self.workflow_list_state.loading = true;
                let query = self.workflow_list_state.get_query();
                self.current_screen = Screen::Workflows;
                Some(AppCommand::RefreshWorkflows(query))
            },
            AppResult::WorkflowOperationSuccess(m) => {
                self.workflow_detail_state.apply_operation_outcome(Ok(m));
                None
            },
            AppResult::WorkflowOperationError(e) => {
                self.workflow_detail_state.apply_operation_outcome(Err(e));
                None
            },
        }
    }

    fn go_to_namespaces(&mut self) -> (cmd: Option<AppCommand>)
        ensures
            went_to_namespaces(*old(self), *final(self), cmd),
    {
        self.current_screen = Screen::Namespaces;
        if self.namespace_list_state.items.len() == 0 && !self.namespace_list_state.loading {
            self.namespace_list_state.loading = true;
            Some(AppCommand::RefreshNamespaces)
        } else {
            None
        }
    }

    fn workflows_key(&mut self, key: KeyCode) -> (cmd: Option<AppCommand>)
        requires
            old(self).current_screen == Screen::Workflows,
        ensures
            workflows_key(*old(self), *final(self), key, cmd),
    {
        let list = &mut self.workflow_list_state;
        if list.input_mode {
            match key {
                KeyCode::Char(c) => {
                    list.type_char(c);
                    None
                },
                KeyCode::Backspace => {
                    list.erase_char();
                    None
                },
                KeyCode::Enter => Some(list.submit_search()),
                KeyCode::Esc => {
                    list.cancel_search();
                    None
                },
                _ => None,
            }
        } else {
            match key {
                KeyCode::Char('q') | KeyCode::Esc => {
                    self.running = false;
                    None
                },
                KeyCode::Down | KeyCode::Char('j') => {
                    list.select_next();
                    None
                },
                KeyCode::Up | KeyCode::Char('k') => {
                    list.select_previous();
                    None
                },
                KeyCode::Char('1') => {
                    self.current_screen = Screen::Workflows;
                    None
                },
                KeyCode::Char('2') => self.go_to_namespaces(),
                KeyCode::Char('?') => {
                    self.help_state.reset_scroll();
                    self.current_screen = Screen::Help;
                    None
                },
                KeyCode::Char('/') => {
                    list.start_search();
                    None
                },
                KeyCode::Char('f') => Some(list.cycle_filter()),
                KeyCode::Char('c') => Some(list.clear_filters()),
                KeyCode::Char('a') => {
                    list.toggle_auto_refresh();
                    None
                },
                KeyCode::Char('r') => Some(list.restart_paging()),
                KeyCode::Char('n') | KeyCode::Right => list.next_page(),
                KeyCode::Char('p') | KeyCode::Left => list.previous_page(),
                KeyCode::Enter => {
                    let mut target: Option<(String, String)> = None;
                    if let Some(w) = list.selected_workflow() {
                        if let Some(e) = &w.execution {
                            target = Some((e.workflow_id.clone(), e.run_id.clone()));
                        }
                    }
                    match target {
                        Some((id, run)) => {
                            self.workflow_detail_state.start_loading();
                            self.current_screen = Screen::WorkflowDetail;
                            Some(AppCommand::ViewWorkflowDetail(id, run))
                        },
                        None => None,
                    }
                },
                _ => None,
            }
        }
    }

    fn namespaces_key(&mut self, key: KeyCode) -> (cmd: Option<AppCommand>)
        requires
            old(self).current_screen == Screen::Namespaces,
        ensures
            namespaces_key(*old(self), *final(self), key, cmd),
    {
        match key {
            KeyCode::Char('q') | KeyCode::Esc | KeyCode::Char('1') => {
                self.current_screen = Screen::Workflows;
                None
            },
            KeyCode::Char('2') => {
                self.current_screen = Screen::Namespaces;
                None
            },
            KeyCode::Down | KeyCode::Char('j') => {
                self.namespace_list_state.select_next();
                None
            },
            KeyCode::Up | KeyCode::Char('k') => {
                self.namespace_list_state.select_previous();
                None
            },
            KeyCode::Char('r') => {
                self.namespace_list_state.loading = true;
                Some(AppCommand::RefreshNamespaces)
            },
            KeyCode::Enter => {
                match self.namespace_list_state.selected_namespace() {
                    Some(ns) => match &ns.namespace_info {
                        Some(info) => Some(AppCommand::SwitchNamespace(info.name.clone())),
                        None => None,
                    },
                    None => None,
                }
            },
            _ => None,
        }
    }

    fn detail_key(&mut self, key: KeyCode) -> (cmd: Option<AppCommand>)
        requires
            old(self).current_screen == Screen::WorkflowDetail,
        ensures
            detail_key(*old(self), *final(self), key, cmd),
    {
        let d = &mut self.workflow_detail_state;
        if d.show_event_detail {
            match key {
                KeyCode::Esc | KeyCode::Char('q') => d.close_event_detail(),
                KeyCode::Down | KeyCode::Char('j') => d.scroll_event_detail_down(1),
                KeyCode::Up | KeyCode::Char('k') => d.scroll_event_detail_up(1),
                KeyCode::PageDown => d.scroll_event_detail_down(10),
                KeyCode::PageUp => d.scroll_event_detail_up(10),
                _ => {},
            }
            return None;
        }
        if d.success_message.is_some() || d.failure_message.is_some() {
            d.dismiss_message();
            return None;
        }
        if d.show_dialog.is_some() {
            // a cancel request takes no text
            let takes_text = d.show_dialog != Some(WorkflowOperation::Cancel);
            return match key {
                KeyCode::Char(c) => {
                    if takes_text {
                        d.type_char(c);
                    }
                    None
                },
                KeyCode::Backspace => {
                    if takes_text {
                        d.erase_char();
                    }
                    None
                },
                KeyCode::Enter => d.confirm_dialog(),
                KeyCode::Esc => {
                    d.close_dialog();
                    None
                },
                _ => None,
            };
        }
        match key {
            KeyCode::Char('q') | KeyCode::Esc | KeyCode::Char('1') => {
                self.current_screen = Screen::Workflows;
                None
            },
            KeyCode::Char('2') => self.go_to_namespaces(),
            KeyCode::Char('t') => {
                d.open_dialog(WorkflowOperation::Terminate);
                None
            },
            KeyCode::Char('x') => {
                d.open_dialog(WorkflowOperation::Cancel);
                None
            },
            KeyCode::Char('s') => {
                d.open_dialog(WorkflowOperation::Signal);
                None
            },
            KeyCode::Down | KeyCode::Char('j') => {
                d.select_next();
                None
            },
            KeyCode::Up | KeyCode::Char('k') => {
                d.select_previous();
                None
            },
            KeyCode::Enter => {
                d.open_event_detail();
                None
            },
            _ => None,
        }
    }

    fn help_key(&mut self, key: KeyCode) -> (cmd: Option<AppCommand>)
        requires
            old(self).current_screen == Screen::Help,
        ensures
            help_key(*old(self), *final(self), key, cmd),
    {
        match key {
            KeyCode::Char('q') | KeyCode::Esc | KeyCode::Char('?') => {
                self.current_screen = Screen::Workflows;
            },
            KeyCode::Down | KeyCode::Char('j') => self.help_state.scroll_down(1),
            KeyCode::Up | KeyCode::Char('k') => self.help_state.scroll_up(1),
            KeyCode::PageDown => self.help_state.scroll_down(10),
            KeyCode::PageUp => self.help_state.scroll_up(10),
            _ => {},
        }
        None
    }

    /// Applies one keystroke to the screen that is shown; overlays and dialogs
    /// take it before the screen does.
    pub fn handle_key(&mut self, key: KeyCode) -> (cmd: Option<AppCommand>)
        ensures
            key_handled(*old(self), *final(self), key, cmd),
            old(self).well_formed() ==> final(self).well_formed(),
    {
        match self.current_screen {
            Screen::Workflows => self.workflows_key(key),
            Screen::Namespaces => self.namespaces_key(key),
            Screen::WorkflowDetail => self.detail_key(key),
            Screen::Help => self.help_key(key),
        }
    }
}

} // verus!
