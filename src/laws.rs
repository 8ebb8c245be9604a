use vstd::prelude::*;

use crate::dispatch::{after_fetch, step, Action, Key, KeyEvent, Modifiers};
use crate::frame::{compose_spec, Area};
use crate::state::{first_of, selection_ok, step_next, step_previous, AppStateView, Pane};

verus! {

/// The selection after a run of moves, `true` for "next", `false` for
/// "previous".
pub open spec fn apply_moves(sel: Option<usize>, len: nat, moves: Seq<bool>) -> Option<usize>
    decreases moves.len(),
{
    if moves.len() == 0 {
        sel
    } else {
        let after = if moves[0] {
            step_next(sel, len)
        } else {
            step_previous(sel)
        };
        apply_moves(after, len, moves.drop_first())
    }
}

/// The state after a run of key presses, each dispatched in turn.
pub open spec fn run_keys(s: AppStateView, keys: Seq<KeyEvent>) -> AppStateView
    decreases keys.len(),
{
    if keys.len() == 0 {
        s
    } else {
        run_keys(step(s, keys[0]).0, keys.drop_first())
    }
}

/// Any run of "next" and "previous" moves keeps a selection inside its list.
pub proof fn lemma_moves_stay_in_bounds(sel: Option<usize>, len: nat, moves: Seq<bool>)
    requires
        selection_ok(sel, len),
    ensures
        selection_ok(apply_moves(sel, len, moves), len),
    decreases moves.len(),
{
    if moves.len() > 0 {
        let after = if moves[0] {
            step_next(sel, len)
        } else {
            step_previous(sel)
        };
        lemma_moves_stay_in_bounds(after, len, moves.drop_first());
    }
}

/// "Next" on the last item and "previous" on the first leave the selection
/// where it is, however often they are repeated.
pub proof fn lemma_moves_clamp_at_ends(len: nat, n: nat)
    requires
        0 < len <= usize::MAX,
    ensures
        apply_moves(Some((len - 1) as usize), len, Seq::new(n, |i: int| true)) == Some(
            (len - 1) as usize,
        ),
        apply_moves(Some(0usize), len, Seq::new(n, |i: int| false)) == Some(0usize),
    decreases n,
{
    if n > 0 {
        lemma_moves_clamp_at_ends(len, (n - 1) as nat);
        assert(Seq::new(n, |i: int| true).drop_first() =~= Seq::new((n - 1) as nat, |i: int| true));
        assert(Seq::new(n, |i: int| false).drop_first() =~= Seq::new(
            (n - 1) as nat,
            |i: int| false,
        ));
    }
}

/// Every key press keeps both selections inside their lists.
pub proof fn lemma_step_keeps_wf(s: AppStateView, e: KeyEvent)
    requires
        s.wf(),
    ensures
        step(s, e).0.wf(),
{
}

/// Any run of key presses keeps both selections inside their lists.
pub proof fn lemma_keys_keep_wf(s: AppStateView, keys: Seq<KeyEvent>)
    requires
        s.wf(),
    ensures
        run_keys(s, keys).wf(),
    decreases keys.len(),
{
    if keys.len() > 0 {
        lemma_step_keeps_wf(s, keys[0]);
        lemma_keys_keep_wf(step(s, keys[0]).0, keys.drop_first());
    }
}

/// A key press that changes the selected database asks for the new
/// database's tables; once they arrive the table list is exactly what was
/// fetched, with its first entry selected (none if it is empty), and on a
/// failed fetch it is empty.
pub proof fn lemma_database_switch_refreshes_tables(
    s: AppStateView,
    e: KeyEvent,
    outcome: Result<Seq<Seq<char>>, Seq<char>>,
)
    requires
        s.wf(),
        step(s, e).0.selected_database != s.selected_database,
    ensures
        step(s, e).0.selected_database is Some,
        step(s, e).1 == Action::FetchTables(step(s, e).0.selected_database->0),
        after_fetch(step(s, e).0, outcome).wf(),
        after_fetch(step(s, e).0, outcome).selected_database == step(s, e).0.selected_database,
        match outcome {
            Ok(t) => after_fetch(step(s, e).0, outcome).tables == t
                && after_fetch(step(s, e).0, outcome).selected_table == first_of(t.len()),
            Err(_) => after_fetch(step(s, e).0, outcome).tables.len() == 0
                && after_fetch(step(s, e).0, outcome).selected_table is None,
        },
{
}

/// Removing a character from an empty query buffer changes nothing.
pub proof fn lemma_pop_on_empty(s: AppStateView)
    requires
        s.query.len() == 0,
    ensures
        s.with_popped() == s,
{
}

/// Appending a character and then removing one gives back the state as it
/// was.
pub proof fn lemma_push_then_pop(s: AppStateView, c: char)
    ensures
        s.with_pushed(c).with_popped() == s,
{
    assert(s.query.push(c).drop_last() =~= s.query);
}

/// While the query editor has focus, every unmodified character key is
/// appended to the query and neither moves the focus nor quits.
pub proof fn lemma_editor_captures_characters(s: AppStateView, c: char)
    requires
        s.focused_pane == Pane::QueryEditor,
    ensures
        step(s, KeyEvent { key: Key::Char(c), modifiers: Modifiers::Plain }) == (
            s.with_pushed(c),
            Action::Continue,
        ),
{
}

/// Laying out the screen depends on the state and the screen size alone.
pub proof fn lemma_compose_deterministic(a: AppStateView, b: AppStateView, sa: Area, sb: Area)
    requires
        a == b,
        sa == sb,
    ensures
        compose_spec(a, sa) == compose_spec(b, sb),
{
}

} // verus!
