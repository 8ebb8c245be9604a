use vstd::prelude::*;

use crate::state::{
    rows_view, step_next, step_previous, strings_view, AppState, AppStateView, Pane, QueryResult,
    ResultView,
};

verus! {

/// The modifier keys held with a key press.
#[derive(Clone, Copy, Debug, PartialEq, Eq, Structural)]
pub enum Modifiers {
    /// No modifier at all.
    Plain,
    /// Control and nothing else.
    Control,
    /// Any other combination.
    Other,
}

/// The key itself.
#[derive(Clone, Copy, Debug, PartialEq, Eq, Structural)]
pub enum Key {
    Char(char),
    Backspace,
    Enter,
    Other,
}

/// One discrete key press as the terminal reports it.
#[derive(Clone, Copy, Debug, PartialEq, Eq, Structural)]
pub struct KeyEvent {
    pub key: Key,
    pub modifiers: Modifiers,
}

/// What the main loop has to do after a key press has been dispatched.
#[derive(Clone, Copy, Debug, PartialEq, Eq, Structural)]
pub enum Action {
    /// Redraw and wait for the next key.
    Continue,
    /// Leave the loop.
    Quit,
    /// Fetch the tables of the database at this index, then hand them to
    /// `finish_fetch` before the next redraw.
    FetchTables(usize),
    /// Run the query buffer against the database at this index, then hand
    /// the outcome to `finish_query` before the next redraw.
    RunQuery(usize),
}

/// The pane that a focus chord (Control with h, j, k or l) switches to.
pub open spec fn chord_pane(e: KeyEvent) -> Option<Pane> {
    if e.modifiers == Modifiers::Control {
        if e.key == Key::Char('h') {
            Some(Pane::DatabaseList)
        } else if e.key == Key::Char('j') {
            Some(Pane::TableList)
        } else if e.key == Key::Char('k') {
            Some(Pane::ResultView)
        } else if e.key == Key::Char('l') {
            Some(Pane::QueryEditor)
        } else {
            None
        }
    } else {
        None
    }
}

/// The action that follows a database selection: a refetch of its tables.
pub open spec fn fetch_for(sel: Option<usize>) -> Action {
    match sel {
        Some(i) => Action::FetchTables(i),
        None => Action::Continue,
    }
}

/// A key press while the query editor has focus: every character is text.
pub open spec fn editor_step(s: AppStateView, k: Key) -> (AppStateView, Action) {
    match k {
        Key::Char(c) => (s.with_pushed(c), Action::Continue),
        Key::Backspace => (s.with_popped(), Action::Continue),
        Key::Enter => (
            s,
            match s.selected_database {
                Some(i) => Action::RunQuery(i),
                None => Action::Continue,
            },
        ),
        Key::Other => (s, Action::Continue),
    }
}

/// A "next" (`forward`) or "previous" move in the focused list.
pub open spec fn move_step(s: AppStateView, forward: bool) -> (AppStateView, Action) {
    if s.focused_pane == Pane::DatabaseList {
        let sel = if forward {
            step_next(s.selected_database, s.databases.len())
        } else {
            step_previous(s.selected_database)
        };
        (AppStateView { selected_database: sel, ..s }, fetch_for(sel))
    } else if s.focused_pane == Pane::TableList {
        let sel = if forward {
            step_next(s.selected_table, s.tables.len())
        } else {
            step_previous(s.selected_table)
        };
        (AppStateView { selected_table: sel, ..s }, Action::Continue)
    } else {
        (s, Action::Continue)
    }
}

/// The transition table: the new state and the action for a key press.
/// Focus chords come first; then the query editor captures every other key;
/// elsewhere `q` quits and plain `j` / `k` move the focused list.
pub open spec fn step(s: AppStateView, e: KeyEvent) -> (AppStateView, Action) {
    match chord_pane(e) {
        Some(p) => (AppStateView { focused_pane: p, ..s }, Action::Continue),
        None => if s.focused_pane == Pane::QueryEditor {
            editor_step(s, e.key)
        } else if e.key == Key::Char('q') {
            (s, Action::Quit)
        } else if e.modifiers == Modifiers::Plain && e.key == Key::Char('j') {
            move_step(s, true)
        } else if e.modifiers == Modifiers::Plain && e.key == Key::Char('k') {
            move_step(s, false)
        } else {
            (s, Action::Continue)
        },
    }
}

/// The state once the tables fetched for a newly selected database arrive:
/// the list is replaced; on failure it is emptied and the error is shown.
pub open spec fn after_fetch(s: AppStateView, outcome: Result<Seq<Seq<char>>, Seq<char>>) -> AppStateView {
    match outcome {
        Ok(t) => s.with_tables(t),
        Err(m) => AppStateView {
            query_result: ResultView::Failure(m),
            ..s.with_tables(Seq::empty())
        },
    }
}

/// The state once a query's outcome arrives: only the result changes.
pub open spec fn after_query(s: AppStateView, outcome: Result<Seq<Seq<Seq<char>>>, Seq<char>>) -> AppStateView {
    AppStateView {
        query_result: match outcome {
            Ok(rows) => ResultView::Table(rows),
            Err(m) => ResultView::Failure(m),
        },
        ..s
    }
}

pub open spec fn fetch_outcome_view(o: Result<Vec<String>, String>) -> Result<Seq<Seq<char>>, Seq<char>> {
    match o {
        Ok(t) => Ok(strings_view(t@)),
        Err(m) => Err(m@),
    }
}

pub open spec fn query_outcome_view(o: Result<Vec<Vec<String>>, String>) -> Result<Seq<Seq<Seq<char>>>, Seq<char>> {
    match o {
        Ok(rows) => Ok(rows_view(rows@)),
        Err(m) => Err(m@),
    }
}

fn is_char(k: Key, c: char) -> (r: bool)
    ensures
        r == (k == Key::Char(c)),
{
    match k {
        Key::Char(d) => d == c,
        _ => false,
    }
}

fn chord_target(e: KeyEvent) -> (r: Option<Pane>)
    ensures
        r == chord_pane(e),
{
    if e.modifiers != Modifiers::Control {
        None
    } else if is_char(e.key, 'h') {
        Some(Pane::DatabaseList)
    } else if is_char(e.key, 'j') {
        Some(Pane::TableList)
    } else if is_char(e.key, 'k') {
        Some(Pane::ResultView)
    } else if is_char(e.key, 'l') {
        Some(Pane::QueryEditor)
    } else {
        None
    }
}

impl AppState {
    /// Applies one key press to the state and says what the loop must do next.
    pub fn dispatch(&mut self, e: KeyEvent) -> (r: Action)
        requires
            old(self).wf(),
        ensures
            final(self).wf(),
            (final(self)@, r) == step(old(self)@, e),
    {
        if let Some(p) = chord_target(e) {
            self.set_focus(p);
            return Action::Continue;
        }
        if self.focused_pane == Pane::QueryEditor {
            match e.key {
                Key::Char(c) => {
                    self.push_query_char(c);
                    Action::Continue
                },
                Key::Backspace => {
                    self.pop_query_char();
                    Action::Continue
                },
                Key::Enter => match self.selected_database {
                    Some(i) => Action::RunQuery(i),
                    None => Action::Continue,
                },
                Key::Other => Action::Continue,
            }
        } else if is_char(e.key, 'q') {
            Action::Quit
        } else if e.modifiers == Modifiers::Plain && (is_char(e.key, 'j') || is_char(e.key, 'k')) {
            let forward = is_char(e.key, 'j');
            if self.focused_pane == Pane::DatabaseList {
                if forward {
                    self.next_database();
                } else {
                    self.previous_database();
                }
                match self.selected_database {
                    Some(i) => Action::FetchTables(i),
                    None => Action::Continue,
                }
            } else if self.focused_pane == Pane::TableList {
                if forward {
                    self.next_table();
                } else {
                    self.previous_table();
                }
                Action::Continue
            } else {
                Action::Continue
            }
        } else {
            Action::Continue
        }
    }

    /// Takes in the tables fetched after a database selection (or their
    /// error) and resets the table selection.
    pub fn finish_fetch(&mut self, outcome: Result<Vec<String>, String>)
        requires
            old(self).wf(),
        ensures
            final(self).wf(),
            final(self)@ == after_fetch(old(self)@, fetch_outcome_view(outcome)),
    {
        match outcome {
            Ok(t) => self.set_tables(t),
            Err(m) => {
                self.set_tables(Vec::new());
                self.set_result(QueryResult::Failure(m));
                assert(strings_view(Seq::<String>::empty()) =~= Seq::<Seq<char>>::empty());
            },
        }
    }

    /// Takes in the outcome of a query; focus and query buffer stay as they
    /// are.
    pub fn finish_query(&mut self, outcome: Result<Vec<Vec<String>>, String>)
        requires
            old(self).wf(),
        ensures
            final(self).wf(),
            final(self)@ == after_query(old(self)@, query_outcome_view(outcome)),
    {
        match outcome {
            Ok(rows) => self.set_result(QueryResult::Table(rows)),
            Err(m) => self.set_result(QueryResult::Failure(m)),
        }
    }
}

} // verus!
