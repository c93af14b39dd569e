use vstd::prelude::*;
use crate::detail::{add_capped, saturating_add_u16, saturating_sub_u16, sub_capped};
use crate::list::{selection_after_next, selection_after_previous, next_selection, previous_selection};
use crate::records::NamespaceDescription;

verus! {

/// Which screen is shown.
#[derive(Clone, Copy, Debug, PartialEq, Eq, Structural)]
pub enum Screen {
    Workflows,
    Namespaces,
    WorkflowDetail,
    Help,
}

/// The selection kept after a list of `len` rows was reloaded: the old row if
/// it still exists, else the first row; none on an empty list.
pub open spec fn selection_after_reload(sel: Option<usize>, len: int) -> Option<usize> {
    if len == 0 {
        None
    } else {
        match sel {
            Some(i) => if i < len {
                Some(i)
            } else {
                Some(0usize)
            },
            None => Some(0usize),
        }
    }
}

/// State of the namespace list screen.
pub struct NamespaceListState {
    pub items: Vec<NamespaceDescription>,
    pub selected: Option<usize>,
    pub loading: bool,
    pub error: Option<String>,
}

impl NamespaceListState {
    /// The state of a screen that was never used.
    pub open spec fn fresh(&self) -> bool {
        &&& self.well_formed()
        &&& self.items@.len() == 0
        &&& !self.loading
        &&& self.error is None
    }

    /// The selection is a row exactly when there are rows.
    pub open spec fn well_formed(&self) -> bool {
        &&& (self.selected is None <==> self.items@.len() == 0)
        &&& (self.selected matches Some(i) ==> i < self.items@.len())
    }

    pub fn new() -> (r: Self)
        ensures
            r.fresh(),
    {
        NamespaceListState { items: Vec::new(), selected: None, loading: false, error: None }
    }

    pub fn select_next(&mut self)
        ensures
            *final(self) == (NamespaceListState {
                selected: selection_after_next(old(self).selected, old(self).items@.len() as int),
                ..*old(self)
            }),
            old(self).well_formed() ==> final(self).well_formed(),
    {
        self.selected = next_selection(self.selected, self.items.len());
    }

    pub fn select_previous(&mut self)
        ensures
            *final(self) == (NamespaceListState {
                selected: selection_after_previous(
                    old(self).selected,
                    old(self).items@.len() as int,
                ),
                ..*old(self)
            }),
            old(self).well_formed() ==> final(self).well_formed(),
    {
        self.selected = previous_selection(self.selected, self.items.len());
    }

    pub fn selected_namespace(&self) -> (r: Option<&NamespaceDescription>)
        ensures
            match self.selected {
                Some(i) => if i < self.items@.len() {
                    r == Some(&self.items@[i as int])
                } else {
                    r is None
                },
                None => r is None,
            },
    {
        match self.selected {
            Some(i) => if i < self.items.len() {
                Some(&self.items[i])
            } else {
                None
            },
            None => None,
        }
    }

    /// Applies a loaded listing: it replaces the rows, ends loading and clears the error.
    pub fn apply_namespaces(&mut self, namespaces: Vec<NamespaceDescription>)
        ensures
            *final(self) == (NamespaceListState {
                items: namespaces,
                selected: selection_after_reload(old(self).selected, namespaces@.len() as int),
                loading: false,
                error: None,
            }),
            final(self).well_formed(),
    {
        let len = namespaces.len();
        self.items = namespaces;
        self.loading = false;
        self.error = None;
        self.selected = if len == 0 {
            None
        } else {
            match self.selected {
                Some(i) => if i < len {
                    Some(i)
                } else {
                    Some(0)
                },
                None => Some(0),
            }
        };
    }

    /// Applies a failed listing: the error is shown, the rows are kept.
    pub fn apply_failure(&mut self, error: String)
        ensures
            *final(self) == (NamespaceListState { error: Some(error), loading: false, ..*old(self) }),
            old(self).well_formed() ==> final(self).well_formed(),
    {
        self.error = Some(error);
        self.loading = false;
    }
}

/// State of the help screen.
pub struct HelpState {
    pub scroll_offset: u16,
}

impl HelpState {
    pub fn new() -> (r: Self)
        ensures
            r.scroll_offset == 0,
    {
        HelpState { scroll_offset: 0 }
    }

    pub fn scroll_down(&mut self, amount: u16)
        ensures
            final(self).scroll_offset == saturating_add_u16(old(self).scroll_offset, amount),
    {
        self.scroll_offset = add_capped(self.scroll_offset, amount);
    }

    pub fn scroll_up(&mut self, amount: u16)
        ensures
            final(self).scroll_offset == saturating_sub_u16(old(self).scroll_offset, amount),
    {
        self.scroll_offset = sub_capped(self.scroll_offset, amount);
    }

    pub fn reset_scroll(&mut self)
        ensures
            final(self).scroll_offset == 0,
    {
        self.scroll_offset = 0;
    }
}

} // verus!
