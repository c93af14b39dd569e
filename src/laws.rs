use vstd::prelude::*;
use crate::app::{key_handled, result_applied, App, KeyCode};
use crate::command::{answers, AppCommand, AppResult};
use crate::screens::Screen;
use crate::list::{
    filter_after, selection_after_next, selection_after_previous, turned_back, turned_forward,
    WorkflowFilter, WorkflowListState,
};
use crate::worker::{answered, RemoteOutcome};

verus! {

/// How many of the first `n` presses turned a page forward: a "next page"
/// press on a state that could turn forward.
pub open spec fn forward_turns(states: Seq<WorkflowListState>, forward: Seq<bool>, n: int) -> int
    decreases n,
{
    if n <= 0 {
        0
    } else {
        forward_turns(states, forward, n - 1) + if forward[n - 1] && states[n - 1].can_turn_forward() {
            1int
        } else {
            0int
        }
    }
}

/// Paging stays in range: over any run of "next page" / "previous page" presses
/// from page 1, the page counter is at least 1 and at most one more than the
/// number of forward turns made so far.
pub proof fn lemma_page_in_range(
    states: Seq<WorkflowListState>,
    cmds: Seq<Option<AppCommand>>,
    forward: Seq<bool>,
)
    requires
        states.len() == forward.len() + 1,
        cmds.len() == forward.len(),
        states[0].current_page == 1,
        forall|i: int|
            0 <= i < forward.len() ==> if forward[i] {
                turned_forward(#[trigger] states[i], states[i + 1], cmds[i])
            } else {
                turned_back(states[i], states[i + 1], cmds[i])
            },
    ensures
        forall|i: int|
            0 <= i <= forward.len() ==> 1 <= #[trigger] states[i].current_page <= 1
                + forward_turns(states, forward, i),
    decreases forward.len(),
{
    if forward.len() > 0 {
        let n = forward.len() - 1;
        lemma_page_in_range(states.drop_last(), cmds.drop_last(), forward.drop_last());
        assert forall|i: int| 0 <= i <= n implies forward_turns(states.drop_last(), forward.drop_last(), i)
            == forward_turns(states, forward, i) by {
            lemma_forward_turns_prefix(states, forward, i);
        }
        assert forall|i: int| 0 <= i <= forward.len() implies 1 <= #[trigger] states[i].current_page
            <= 1 + forward_turns(states, forward, i) by {
            if i <= n {
                assert(states.drop_last()[i] == states[i]);
                assert(1 <= states.drop_last()[i].current_page);
            } else {
                assert(states.drop_last()[n] == states[n]);
                assert(1 <= states.drop_last()[n].current_page <= 1 + forward_turns(
                    states.drop_last(),
                    forward.drop_last(),
                    n,
                ));
                assert(forward_turns(states, forward, n + 1) == forward_turns(states, forward, n)
                    + if forward[n] && states[n].can_turn_forward() {
                    1int
                } else {
                    0int
                });
                if forward[n] {
                    assert(turned_forward(states[n], states[n + 1], cmds[n]));
                } else {
                    assert(turned_back(states[n], states[n + 1], cmds[n]));
                }
            }
        }
    }
}

proof fn lemma_forward_turns_prefix(states: Seq<WorkflowListState>, forward: Seq<bool>, i: int)
    requires
        0 <= i < forward.len(),
        states.len() == forward.len() + 1,
    ensures
        forward_turns(states.drop_last(), forward.drop_last(), i) == forward_turns(states, forward, i),
    decreases i,
{
    if i > 0 {
        lemma_forward_turns_prefix(states, forward, i - 1);
    }
}

/// Whether `key` on session `s` turns the workflow list a page forward: "next
/// page" on the list, out of search mode, when a further page exists and
/// nothing is loading.
pub open spec fn turns_forward(s: App, key: KeyCode) -> bool {
    &&& s.current_screen == Screen::Workflows
    &&& !s.workflow_list_state.input_mode
    &&& key == KeyCode::Char('n') || key == KeyCode::Right
    &&& s.workflow_list_state.can_turn_forward()
}

/// One step of a session: a keystroke (`Some`) or an arriving result (`None`).
#[verifier::opaque]
pub open spec fn session_step(s: App, t: App, key: Option<KeyCode>, cmd: Option<AppCommand>) -> bool {
    match key {
        Some(k) => key_handled(s, t, k, cmd),
        None => exists|r: AppResult, now: u64| result_applied(s, t, r, now, cmd),
    }
}

/// How many of the first `n` steps turned the workflow list a page forward.
pub open spec fn session_forward_turns(states: Seq<App>, keys: Seq<Option<KeyCode>>, n: int) -> int
    decreases n,
{
    if n <= 0 {
        0
    } else {
        session_forward_turns(states, keys, n - 1) + if keys[n - 1] matches Some(k) && turns_forward(
            states[n - 1],
            k,
        ) {
            1int
        } else {
            0int
        }
    }
}

proof fn lemma_step_keeps_page_in_range(s: App, t: App, key: Option<KeyCode>, cmd: Option<AppCommand>)
    requires
        session_step(s, t, key, cmd),
        1 <= s.workflow_list_state.current_page,
    ensures
        1 <= t.workflow_list_state.current_page <= s.workflow_list_state.current_page + if key matches Some(
            k,
        ) && turns_forward(s, k) {
            1int
        } else {
            0int
        },
{
    reveal(session_step);
    match key {
        Some(k) => {},
        None => {
            let (r, now) = choose|r: AppResult, now: u64| result_applied(s, t, r, now, cmd);
            assert(result_applied(s, t, r, now, cmd));
        },
    }
}

/// The page counter stays in range over any session: whatever keys are
/// pressed and results arrive, starting on page 1 the counter is at least 1
/// and at most one more than the number of forward page turns so far.
pub proof fn lemma_session_page_in_range(
    states: Seq<App>,
    keys: Seq<Option<KeyCode>>,
    cmds: Seq<Option<AppCommand>>,
)
    requires
        states.len() == keys.len() + 1,
        cmds.len() == keys.len(),
        states[0].workflow_list_state.current_page == 1,
        forall|i: int|
            0 <= i < keys.len() ==> session_step(#[trigger] states[i], states[i + 1], keys[i], cmds[i]),
    ensures
        forall|i: int|
            0 <= i <= keys.len() ==> 1 <= #[trigger] states[i].workflow_list_state.current_page <= 1
                + session_forward_turns(states, keys, i),
    decreases keys.len(),
{
    if keys.len() > 0 {
        let n = keys.len() - 1;
        let ps = states.drop_last();
        let pk = keys.drop_last();
        let pc = cmds.drop_last();
        assert forall|i: int| 0 <= i < pk.len() implies session_step(
            #[trigger] ps[i],
            ps[i + 1],
            pk[i],
            pc[i],
        ) by {
            assert(ps[i] == states[i] && ps[i + 1] == states[i + 1]);
            assert(session_step(states[i], states[i + 1], keys[i], cmds[i]));
        }
        lemma_session_page_in_range(ps, pk, pc);
        assert forall|i: int| 0 <= i <= n implies session_forward_turns(ps, pk, i)
            == session_forward_turns(states, keys, i) by {
            lemma_session_turns_prefix(states, keys, i);
        }
        assert forall|i: int| 0 <= i <= keys.len() implies 1
            <= #[trigger] states[i].workflow_list_state.current_page <= 1 + session_forward_turns(
            states,
            keys,
            i,
        ) by {
            if i <= n {
                assert(ps[i] == states[i]);
                assert(1 <= ps[i].workflow_list_state.current_page);
            } else {
                assert(ps[n] == states[n]);
                assert(1 <= ps[n].workflow_list_state.current_page <= 1 + session_forward_turns(
                    ps,
                    pk,
                    n,
                ));
                assert(session_step(states[n], states[n + 1], keys[n], cmds[n]));
                lemma_step_keeps_page_in_range(states[n], states[n + 1], keys[n], cmds[n]);
            }
        }
    }
}

proof fn lemma_session_turns_prefix(states: Seq<App>, keys: Seq<Option<KeyCode>>, i: int)
    requires
        0 <= i < keys.len(),
        states.len() == keys.len() + 1,
    ensures
        session_forward_turns(states.drop_last(), keys.drop_last(), i) == session_forward_turns(
            states,
            keys,
            i,
        ),
    decreases i,
{
    if i > 0 {
        lemma_session_turns_prefix(states, keys, i - 1);
    }
}

/// A failed load never touches the data: applying the same failure once or
/// twice leaves the rows and both cursors as they were, and the second
/// application changes nothing.
pub proof fn lemma_failure_idempotent(s: WorkflowListState, error: String)
    ensures
        s.after_failure(error).items == s.items,
        s.after_failure(error).after_failure(error).items == s.items,
        s.after_failure(error).next_page_token == s.next_page_token,
        s.after_failure(error).prev_page_tokens == s.prev_page_tokens,
        s.after_failure(error).after_failure(error) == s.after_failure(error),
{
}

/// Six steps of the filter cycle come back to where they started.
pub proof fn lemma_filter_cycle_closes(f: Option<WorkflowFilter>)
    ensures
        filter_after(filter_after(filter_after(filter_after(filter_after(filter_after(f))))))
            == f,
{
}

/// Selection wraps around: "next" from the last row goes to the first, and
/// "previous" from the first row goes to the last.
pub proof fn lemma_selection_wraps(len: usize)
    requires
        len > 0,
    ensures
        selection_after_next(Some((len - 1) as usize), len as int) == Some(0usize),
        selection_after_previous(Some(0usize), len as int) == Some((len - 1) as usize),
{
}

/// Every result the worker produces is of the kind that answers its command.
pub proof fn lemma_result_answers_command(c: AppCommand, o: RemoteOutcome, r: AppResult)
    requires
        answered(c, o, r),
    ensures
        answers(c, r),
{
}

} // verus!
