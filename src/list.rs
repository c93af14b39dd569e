use vstd::prelude::*;
use crate::command::{AppCommand, CommandView};
use crate::records::WorkflowExecutionInfo;
use crate::text::{pop_char, push_char};

verus! {

/// A status filter of the workflow list.
#[derive(Clone, Copy, Debug, PartialEq, Eq, Structural)]
pub enum WorkflowFilter {
    All,
    Running,
    Completed,
    Failed,
    Canceled,
}

/// One step of the filter cycle: none, Running, Completed, Failed, Canceled, All, none.
pub open spec fn filter_after(f: Option<WorkflowFilter>) -> Option<WorkflowFilter> {
    match f {
        None => Some(WorkflowFilter::Running),
        Some(WorkflowFilter::Running) => Some(WorkflowFilter::Completed),
        Some(WorkflowFilter::Completed) => Some(WorkflowFilter::Failed),
        Some(WorkflowFilter::Failed) => Some(WorkflowFilter::Canceled),
        Some(WorkflowFilter::Canceled) => Some(WorkflowFilter::All),
        Some(WorkflowFilter::All) => None,
    }
}

/// The query atom of a filter; `All` and no filter restrict nothing.
pub open spec fn filter_clause(f: Option<WorkflowFilter>) -> Option<Seq<char>> {
    match f {
        Some(WorkflowFilter::Running) => Some("ExecutionStatus = 'Running'"@),
        Some(WorkflowFilter::Completed) => Some("ExecutionStatus = 'Completed'"@),
        Some(WorkflowFilter::Failed) => Some("ExecutionStatus = 'Failed'"@),
        Some(WorkflowFilter::Canceled) => Some("ExecutionStatus = 'Canceled'"@),
        _ => None,
    }
}

/// The filter atom and the free-text query joined by ` AND `, filter first;
/// an absent or empty part is left out.
pub open spec fn compose_query(f: Option<WorkflowFilter>, q: Seq<char>) -> Seq<char> {
    match filter_clause(f) {
        Some(c) => if q.len() == 0 {
            c
        } else {
            c + " AND "@ + q
        },
        None => q,
    }
}

/// Whole seconds from `from` to `now` (milliseconds), zero if the clock went back.
pub open spec fn elapsed_secs(from: u64, now: u64) -> int {
    if now >= from {
        (now - from) / 1000
    } else {
        0
    }
}

/// The selection after moving down one row on a list of `len` rows.
pub open spec fn selection_after_next(sel: Option<usize>, len: int) -> Option<usize> {
    if len == 0 {
        sel
    } else {
        match sel {
            Some(i) => if i >= len - 1 {
                Some(0usize)
            } else {
                Some((i + 1) as usize)
            },
            None => Some(0usize),
        }
    }
}

/// The selection after moving up one row on a list of `len` rows.
pub open spec fn selection_after_previous(sel: Option<usize>, len: int) -> Option<usize> {
    if len == 0 {
        sel
    } else {
        match sel {
            Some(i) => if i == 0 {
                Some((len - 1) as usize)
            } else {
                Some((i - 1) as usize)
            },
            None => Some(0usize),
        }
    }
}

/// The selection right after a list of `len` rows was loaded.
pub open spec fn selection_after_load(len: int) -> Option<usize> {
    if len == 0 {
        None
    } else {
        Some(0usize)
    }
}

pub fn next_selection(sel: Option<usize>, len: usize) -> (r: Option<usize>)
    ensures
        r == selection_after_next(sel, len as int),
{
    if len == 0 {
        return sel;
    }
    match sel {
        Some(i) => if i >= len - 1 {
            Some(0)
        } else {
            Some(i + 1)
        },
        None => Some(0),
    }
}

pub fn previous_selection(sel: Option<usize>, len: usize) -> (r: Option<usize>)
    ensures
        r == selection_after_previous(sel, len as int),
{
    if len == 0 {
        return sel;
    }
    match sel {
        Some(i) => if i == 0 {
            Some(len - 1)
        } else {
            Some(i - 1)
        },
        None => Some(0),
    }
}

pub fn next_filter(f: Option<WorkflowFilter>) -> (r: Option<WorkflowFilter>)
    ensures
        r == filter_after(f),
{
    match f {
        None => Some(WorkflowFilter::Running),
        Some(WorkflowFilter::Running) => Some(WorkflowFilter::Completed),
        Some(WorkflowFilter::Completed) => Some(WorkflowFilter::Failed),
        Some(WorkflowFilter::Failed) => Some(WorkflowFilter::Canceled),
        Some(WorkflowFilter::Canceled) => Some(WorkflowFilter::All),
        Some(WorkflowFilter::All) => None,
    }
}

/// State of the workflow list screen.
pub struct WorkflowListState {
    /// The current page, in the order the service returned it.
    pub items: Vec<WorkflowExecutionInfo>,
    /// The highlighted row.
    pub selected: Option<usize>,
    /// Continuation token of the next page; empty when there is none.
    pub next_page_token: Vec<u8>,
    /// One marker per page turned forward and not yet turned back.
    pub prev_page_tokens: Vec<Vec<u8>>,
    pub loading: bool,
    pub error: Option<String>,
    pub current_page: usize,
    /// The free-text query.
    pub query: String,
    pub query_history: Vec<String>,
    /// Whether keystrokes are typed into the query.
    pub input_mode: bool,
    pub active_filter: Option<WorkflowFilter>,
    pub auto_refresh_enabled: bool,
    pub auto_refresh_interval_secs: u64,
    /// When the last page arrived, in milliseconds of the refresh clock.
    pub last_refresh: Option<u64>,
}

/// `new` is `old` reloading from its first page: loading, page 1, empty back stack.
pub open spec fn paging_restarted(old: WorkflowListState, new: WorkflowListState) -> bool {
    &&& new.prev_page_tokens@.len() == 0
    &&& new == (WorkflowListState {
        loading: true,
        current_page: 1,
        prev_page_tokens: new.prev_page_tokens,
        ..old
    })
}

/// `new` is `old` after "next page", and `cmd` the command it sends.
pub open spec fn turned_forward(
    old: WorkflowListState,
    new: WorkflowListState,
    cmd: Option<AppCommand>,
) -> bool {
    if old.can_turn_forward() {
        &&& cmd matches Some(c) && c@ == CommandView::LoadNextPage(
            old.query_view(),
            old.next_page_token@,
        )
        &&& new.prev_page_tokens@.len() == old.prev_page_tokens@.len() + 1
        &&& new.prev_page_tokens@.drop_last() == old.prev_page_tokens@
        &&& new == (WorkflowListState {
            loading: true,
            current_page: (old.current_page + 1) as usize,
            prev_page_tokens: new.prev_page_tokens,
            ..old
        })
    } else {
        cmd is None && new == old
    }
}

/// `new` is `old` after "previous page", and `cmd` the command it sends.
pub open spec fn turned_back(
    old: WorkflowListState,
    new: WorkflowListState,
    cmd: Option<AppCommand>,
) -> bool {
    if old.can_turn_back() {
        &&& cmd matches Some(c) && c@ == CommandView::LoadPreviousPage(old.query_view())
        &&& new.prev_page_tokens@ == old.prev_page_tokens@.drop_last()
        &&& new == (WorkflowListState {
            loading: true,
            current_page: if old.current_page > 1 {
                (old.current_page - 1) as usize
            } else {
                1
            },
            prev_page_tokens: new.prev_page_tokens,
            ..old
        })
    } else {
        cmd is None && new == old
    }
}

/// `new` is `old` after the search text was submitted, and `cmd` the command it sends.
pub open spec fn search_submitted(
    old: WorkflowListState,
    new: WorkflowListState,
    cmd: AppCommand,
) -> bool {
    &&& cmd@ == CommandView::RefreshWorkflows(old.query_view())
    &&& old.query@.len() > 0 ==> new.query_history@.len() == old.query_history@.len() + 1
        && new.query_history@.drop_last() == old.query_history@ && new.query_history@.last()@
        == old.query@
    &&& old.query@.len() == 0 ==> new.query_history == old.query_history
    &&& paging_restarted(
        WorkflowListState { input_mode: false, query_history: new.query_history, ..old },
        new,
    )
}

impl WorkflowListState {
    /// The state of a screen that was never used.
    pub open spec fn fresh(&self) -> bool {
        &&& self.well_formed()
        &&& self.items@.len() == 0
        &&& self.next_page_token@.len() == 0
        &&& self.current_page == 1
        &&& self.query@.len() == 0
        &&& self.query_history@.len() == 0
        &&& !self.loading && !self.input_mode && !self.auto_refresh_enabled
        &&& self.error is None && self.active_filter is None && self.last_refresh is None
        &&& self.auto_refresh_interval_secs == 5
    }

    /// The page counter agrees with the back stack, and the selection is a row
    /// exactly when there are rows.
    pub open spec fn well_formed(&self) -> bool {
        &&& self.current_page == self.prev_page_tokens@.len() + 1
        &&& (self.selected is None <==> self.items@.len() == 0)
        &&& (self.selected matches Some(i) ==> i < self.items@.len())
    }

    /// The query sent for the current filter and free text.
    pub open spec fn query_view(&self) -> Seq<char> {
        compose_query(self.active_filter, self.query@)
    }

    /// Whether the auto-refresh timer fires at `now` (milliseconds).
    pub open spec fn refresh_due(&self, now: u64) -> bool {
        &&& self.auto_refresh_enabled
        &&& !self.loading
        &&& match self.last_refresh {
            Some(t) => elapsed_secs(t, now) >= self.auto_refresh_interval_secs,
            None => true,
        }
    }

    /// Whether "next page" acts: a further page exists and nothing is loading.
    pub open spec fn can_turn_forward(&self) -> bool {
        self.next_page_token@.len() > 0 && !self.loading && self.current_page < usize::MAX
    }

    /// Whether "previous page" acts: a page was turned forward and nothing is loading.
    pub open spec fn can_turn_back(&self) -> bool {
        self.prev_page_tokens@.len() > 0 && !self.loading
    }

    pub fn new() -> (r: Self)
        ensures
            r.fresh(),
    {
        WorkflowListState {
            items: Vec::new(),
            selected: None,
            next_page_token: Vec::new(),
            prev_page_tokens: Vec::new(),
            loading: false,
            error: None,
            current_page: 1,
            query: String::new(),
            query_history: Vec::new(),
            input_mode: false,
            active_filter: None,
            auto_refresh_enabled: false,
            auto_refresh_interval_secs: 5,
            last_refresh: None,
        }
    }

    /// Whether the auto-refresh timer fires at `now`, in milliseconds of the clock
    /// that `mark_refreshed` was given.
    pub fn should_refresh(&self, now: u64) -> (r: bool)
        ensures
            r == self.refresh_due(now),
    {
        if !self.auto_refresh_enabled || self.loading {
            return false;
        }
        match self.last_refresh {
            Some(last) => {
                let elapsed: u64 = if now >= last {
                    (now - last) / 1000
                } else {
                    0
                };
                elapsed >= self.auto_refresh_interval_secs
            },
            None => true,
        }
    }

    pub fn mark_refreshed(&mut self, now: u64)
        ensures
            *final(self) == (WorkflowListState { last_refresh: Some(now), ..*old(self) }),
    {
        self.last_refresh = Some(now);
    }

    pub fn get_query(&self) -> (r: String)
        ensures
            r@ == self.query_view(),
    {
        let clause: Option<&str> = match self.active_filter {
            Some(WorkflowFilter::Running) => Some("ExecutionStatus = 'Running'"),
            Some(WorkflowFilter::Completed) => Some("ExecutionStatus = 'Completed'"),
            Some(WorkflowFilter::Failed) => Some("ExecutionStatus = 'Failed'"),
            Some(WorkflowFilter::Canceled) => Some("ExecutionStatus = 'Canceled'"),
            _ => None,
        };
        match clause {
            Some(c) => {
                if self.query.as_str().is_empty() {
                    String::from_str(c)
                } else {
                    let s = String::from_str(c).concat(" AND ");
                    s.concat(self.query.as_str())
                }
            },
            None => self.query.clone(),
        }
    }

    pub fn has_next_page(&self) -> (r: bool)
        ensures
            r == (self.next_page_token@.len() > 0),
    {
        !self.next_page_token.is_empty()
    }

    pub fn has_prev_page(&self) -> (r: bool)
        ensures
            r == (self.prev_page_tokens@.len() > 0),
    {
        !self.prev_page_tokens.is_empty()
    }

    pub fn select_next(&mut self)
        ensures
            *final(self) == (WorkflowListState {
                selected: selection_after_next(old(self).selected, old(self).items@.len() as int),
                ..*old(self)
            }),
            old(self).well_formed() ==> final(self).well_formed(),
    {
        self.selected = next_selection(self.selected, self.items.len());
    }

    pub fn select_previous(&mut self)
        ensures
            *final(self) == (WorkflowListState {
                selected: selection_after_previous(
                    old(self).selected,
                    old(self).items@.len() as int,
                ),
                ..*old(self)
            }),
            old(self).well_formed() ==> final(self).well_formed(),
    {
        self.selected = previous_selection(self.selected, self.items.len());
    }

    pub fn selected_workflow(&self) -> (r: Option<&WorkflowExecutionInfo>)
        ensures
            match self.selected {
                Some(i) => if i < self.items@.len() {
                    r == Some(&self.items@[i as int])
                } else {
                    r is None
                },
                None => r is None,
            },
    {
        match self.selected {
            Some(i) => if i < self.items.len() {
                Some(&self.items[i])
            } else {
                None
            },
            None => None,
        }
    }

    /// Applies a loaded page: it replaces the rows and the forward cursor, ends
    /// loading, clears the error, selects the first row and stamps the time.
    /// Pages apply in arrival order and the last one wins; the worker answers
    /// commands one at a time in the order sent, so the last page to arrive
    /// answers the last load asked for.
    pub fn apply_page(&mut self, workflows: Vec<WorkflowExecutionInfo>, next_page_token: Vec<u8>, now: u64)
        ensures
            *final(self) == (WorkflowListState {
                items: workflows,
                selected: selection_after_load(workflows@.len() as int),
                next_page_token: next_page_token,
                loading: false,
                error: None,
                last_refresh: Some(now),
                ..*old(self)
            }),
            old(self).well_formed() ==> final(self).well_formed(),
    {
        let empty = workflows.len() == 0;
        self.items = workflows;
        self.next_page_token = next_page_token;
        self.loading = false;
        self.error = None;
        self.mark_refreshed(now);
        self.selected = if empty {
            None
        } else {
            Some(0)
        };
    }

    /// Applies a failed load: it records the error and ends loading, and keeps
    /// the rows and cursors that were shown.
    pub fn apply_failure(&mut self, error: String)
        ensures
            *final(self) == old(self).after_failure(error),
            old(self).well_formed() ==> final(self).well_formed(),
    {
        self.error = Some(error);
        self.loading = false;
    }

    /// The state after a failed load with message `error`.
    pub open spec fn after_failure(self, error: String) -> Self {
        WorkflowListState { error: Some(error), loading: false, ..self }
    }

    /// Starts a reload of the first page for the current query: the page counter
    /// goes back to 1 and the back stack is emptied.
    pub fn restart_paging(&mut self) -> (cmd: AppCommand)
        ensures
            cmd@ == CommandView::RefreshWorkflows(old(self).query_view()),
            paging_restarted(*old(self), *final(self)),
            old(self).well_formed() ==> final(self).well_formed(),
    {
        self.loading = true;
        self.prev_page_tokens = Vec::new();
        self.current_page = 1;
        AppCommand::RefreshWorkflows(self.get_query())
    }

    /// Advances the filter one step of its cycle and reloads from the first page.
    pub fn cycle_filter(&mut self) -> (cmd: AppCommand)
        ensures
            cmd@ == CommandView::RefreshWorkflows(final(self).query_view()),
            paging_restarted(
                WorkflowListState {
                    active_filter: filter_after(old(self).active_filter),
                    ..*old(self)
                },
                *final(self),
            ),
            old(self).well_formed() ==> final(self).well_formed(),
    {
        self.active_filter = next_filter(self.active_filter);
        self.restart_paging()
    }

    /// Drops the filter and the free-text query and reloads from the first page.
    pub fn clear_filters(&mut self) -> (cmd: AppCommand)
        ensures
            cmd@ == CommandView::RefreshWorkflows(Seq::empty()),
            final(self).query@.len() == 0,
            paging_restarted(
                WorkflowListState { active_filter: None, query: final(self).query, ..*old(self) },
                *final(self),
            ),
            old(self).well_formed() ==> final(self).well_formed(),
    {
        self.active_filter = None;
        self.query = String::new();
        self.restart_paging()
    }

    /// "Next page": when a further page exists and nothing is loading, pushes a
    /// marker on the back stack, counts the page and asks for it.
    pub fn next_page(&mut self) -> (cmd: Option<AppCommand>)
        ensures
            turned_forward(*old(self), *final(self), cmd),
            old(self).well_formed() ==> final(self).well_formed(),
    {
        if self.next_page_token.is_empty() || self.loading || self.current_page == usize::MAX {
            return None;
        }
        self.loading = true;
        self.prev_page_tokens.push(Vec::new());
        self.current_page = self.current_page + 1;
        assert(self.prev_page_tokens@.drop_last() =~= old(self).prev_page_tokens@);
        Some(AppCommand::LoadNextPage(self.get_query(), self.next_page_token.clone()))
    }

    /// "Previous page": when a page was turned forward and nothing is loading,
    /// pops the back stack, counts the page down (not below 1) and replays the
    /// query from its first page. Real backward cursors are not kept, so what
    /// arrives is the first page of results, whatever the counter shows.
    pub fn previous_page(&mut self) -> (cmd: Option<AppCommand>)
        ensures
            turned_back(*old(self), *final(self), cmd),
            old(self).well_formed() ==> final(self).well_formed(),
    {
        if self.prev_page_tokens.is_empty() || self.loading {
            return None;
        }
        self.loading = true;
        let _ = self.prev_page_tokens.pop();
        self.current_page = if self.current_page > 1 {
            self.current_page - 1
        } else {
            1
        };
        Some(AppCommand::LoadPreviousPage(self.get_query()))
    }

    /// The auto-refresh reload: it asks for the first page of the current query
    /// and marks the list loading, without touching the page counter.
    pub fn start_auto_refresh(&mut self) -> (cmd: AppCommand)
        ensures
            cmd@ == CommandView::RefreshWorkflows(old(self).query_view()),
            *final(self) == (WorkflowListState { loading: true, ..*old(self) }),
    {
        self.loading = true;
        AppCommand::RefreshWorkflows(self.get_query())
    }

    /// Enters search mode with an empty query.
    pub fn start_search(&mut self)
        ensures
            final(self).query@.len() == 0,
            *final(self) == (WorkflowListState {
                input_mode: true,
                query: final(self).query,
                ..*old(self)
            }),
    {
        self.input_mode = true;
        self.query = String::new();
    }

    /// Types one character into the query.
    pub fn type_char(&mut self, c: char)
        ensures
            final(self).query@ == old(self).query@.push(c),
            *final(self) == (WorkflowListState { query: final(self).query, ..*old(self) }),
    {
        push_char(&mut self.query, c);
    }

    /// Erases the last character of the query, if any.
    pub fn erase_char(&mut self)
        ensures
            old(self).query@.len() > 0 ==> final(self).query@ == old(self).query@.drop_last(),
            old(self).query@.len() == 0 ==> final(self).query@ == old(self).query@,
            *final(self) == (WorkflowListState { query: final(self).query, ..*old(self) }),
    {
        let _ = pop_char(&mut self.query);
    }

    /// Leaves search mode and runs the query from the first page; a non-empty
    /// query is remembered in the history.
    pub fn submit_search(&mut self) -> (cmd: AppCommand)
        ensures
            search_submitted(*old(self), *final(self), cmd),
            old(self).well_formed() ==> final(self).well_formed(),
    {
        if !self.query.as_str().is_empty() {
            let q = self.query.clone();
            self.query_history.push(q);
            assert(self.query_history@.drop_last() =~= old(self).query_history@);
        }
        self.input_mode = false;
        self.restart_paging()
    }

    /// Leaves search mode without running the query.
    pub fn cancel_search(&mut self)
        ensures
            *final(self) == (WorkflowListState { input_mode: false, ..*old(self) }),
    {
        self.input_mode = false;
    }

    /// Switches the auto-refresh timer on or off.
    pub fn toggle_auto_refresh(&mut self)
        ensures
            *final(self) == (WorkflowListState {
                auto_refresh_enabled: !old(self).auto_refresh_enabled,
                ..*old(self)
            }),
    {
        self.auto_refresh_enabled = !self.auto_refresh_enabled;
    }
}

} // verus!
