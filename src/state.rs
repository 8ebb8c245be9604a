use vstd::prelude::*;

verus! {

/// One of the four regions of the screen that can hold keyboard focus.
#[derive(Clone, Copy, Debug, PartialEq, Eq, Structural)]
pub enum Pane {
    DatabaseList,
    TableList,
    ResultView,
    QueryEditor,
}

/// What the result panel currently holds.
#[derive(Debug)]
pub enum QueryResult {
    Empty,
    /// Rows of string-rendered cells; the first row fixes the column count.
    Table(Vec<Vec<String>>),
    /// A gateway failure, kept as its message.
    Failure(String),
}

/// The mathematical picture of a `QueryResult`.
pub ghost enum ResultView {
    Empty,
    Table(Seq<Seq<Seq<char>>>),
    Failure(Seq<char>),
}

pub open spec fn strings_view(v: Seq<String>) -> Seq<Seq<char>> {
    v.map_values(|s: String| s@)
}

pub open spec fn rows_view(rows: Seq<Vec<String>>) -> Seq<Seq<Seq<char>>> {
    rows.map_values(|r: Vec<String>| strings_view(r@))
}

impl View for QueryResult {
    type V = ResultView;

    open spec fn view(&self) -> ResultView {
        match self {
            QueryResult::Empty => ResultView::Empty,
            QueryResult::Table(rows) => ResultView::Table(rows_view(rows@)),
            QueryResult::Failure(m) => ResultView::Failure(m@),
        }
    }
}

/// The whole interactive state of one browsing session.
pub struct AppState {
    pub databases: Vec<String>,
    pub selected_database: Option<usize>,
    pub tables: Vec<String>,
    pub selected_table: Option<usize>,
    pub query: Vec<char>,
    pub query_result: QueryResult,
    pub focused_pane: Pane,
}

/// The mathematical picture of a `AppState`.
pub ghost struct AppStateView {
    pub databases: Seq<Seq<char>>,
    pub selected_database: Option<usize>,
    pub tables: Seq<Seq<char>>,
    pub selected_table: Option<usize>,
    pub query: Seq<char>,
    pub query_result: ResultView,
    pub focused_pane: Pane,
}

/// A selection into a list of `len` items is present exactly when the list is
/// non-empty, and then points inside it.
pub open spec fn selection_ok(sel: Option<usize>, len: nat) -> bool {
    match sel {
        Some(i) => i < len,
        None => len == 0,
    }
}

/// The selection that a freshly loaded list of `len` items starts with.
pub open spec fn first_of(len: nat) -> Option<usize> {
    if len == 0 {
        None
    } else {
        Some(0usize)
    }
}

/// Moving a selection one step towards the end, stopping at the last item.
pub open spec fn step_next(sel: Option<usize>, len: nat) -> Option<usize> {
    match sel {
        Some(i) => if i + 1 < len {
            Some((i + 1) as usize)
        } else {
            sel
        },
        None => None,
    }
}

/// Moving a selection one step towards the start, stopping at the first item.
pub open spec fn step_previous(sel: Option<usize>) -> Option<usize> {
    match sel {
        Some(i) => if i > 0 {
            Some((i - 1) as usize)
        } else {
            sel
        },
        None => None,
    }
}

impl AppStateView {
    pub open spec fn wf(self) -> bool {
        &&& selection_ok(self.selected_database, self.databases.len())
        &&& selection_ok(self.selected_table, self.tables.len())
    }

    /// The state after `c` is appended to the query buffer.
    pub open spec fn with_pushed(self, c: char) -> AppStateView {
        AppStateView { query: self.query.push(c), ..self }
    }

    /// The state after the last character of the query buffer is removed;
    /// an empty buffer stays empty.
    pub open spec fn with_popped(self) -> AppStateView {
        if self.query.len() == 0 {
            self
        } else {
            AppStateView { query: self.query.drop_last(), ..self }
        }
    }

    /// The state after the table list is replaced by `t`.
    pub open spec fn with_tables(self, t: Seq<Seq<char>>) -> AppStateView {
        AppStateView { tables: t, selected_table: first_of(t.len()), ..self }
    }
}

impl View for AppState {
    type V = AppStateView;

    open spec fn view(&self) -> AppStateView {
        AppStateView {
            databases: strings_view(self.databases@),
            selected_database: self.selected_database,
            tables: strings_view(self.tables@),
            selected_table: self.selected_table,
            query: self.query@,
            query_result: self.query_result@,
            focused_pane: self.focused_pane,
        }
    }
}

impl AppState {
    pub open spec fn wf(&self) -> bool {
        self@.wf()
    }

    /// A session over the given database list: the first database selected,
    /// no tables loaded yet, an empty query and the database list focused.
    pub fn new(databases: Vec<String>) -> (r: AppState)
        ensures
            r.wf(),
            r@.databases == strings_view(databases@),
            r@.selected_database == first_of(databases@.len()),
            r@.tables == Seq::<Seq<char>>::empty(),
            r@.selected_table.is_none(),
            r@.query == Seq::<char>::empty(),
            r@.query_result == ResultView::Empty,
            r@.focused_pane == Pane::DatabaseList,
    {
        let selected_database = if databases.len() == 0 {
            None
        } else {
            Some(0usize)
        };
        let r = AppState {
            databases,
            selected_database,
            tables: Vec::new(),
            selected_table: None,
            query: Vec::new(),
            query_result: QueryResult::Empty,
            focused_pane: Pane::DatabaseList,
        };
        assert(strings_view(r.tables@) =~= Seq::<Seq<char>>::empty());
        r
    }

    /// Moves the database selection one step down, stopping at the last one.
    pub fn next_database(&mut self)
        requires
            old(self).wf(),
        ensures
            final(self).wf(),
            final(self)@ == (AppStateView {
                selected_database: step_next(old(self)@.selected_database, old(self)@.databases.len()),
                ..old(self)@
            }),
    {
        if let Some(selected) = self.selected_database {
            assert(selected < self.databases@.len());
            if selected < self.databases.len() - 1 {
                self.selected_database = Some(selected + 1);
            }
        }
    }

    /// Moves the database selection one step up, stopping at the first one.
    pub fn previous_database(&mut self)
        requires
            old(self).wf(),
        ensures
            final(self).wf(),
            final(self)@ == (AppStateView {
                selected_database: step_previous(old(self)@.selected_database),
                ..old(self)@
            }),
    {
        if let Some(selected) = self.selected_database {
            if selected > 0 {
                self.selected_database = Some(selected - 1);
            }
        }
    }

    /// Moves the table selection one step down, stopping at the last one.
    pub fn next_table(&mut self)
        requires
            old(self).wf(),
        ensures
            final(self).wf(),
            final(self)@ == (AppStateView {
                selected_table: step_next(old(self)@.selected_table, old(self)@.tables.len()),
                ..old(self)@
            }),
    {
        if let Some(selected) = self.selected_table {
            assert(selected < self.tables@.len());
            if selected < self.tables.len() - 1 {
                self.selected_table = Some(selected + 1);
            }
        }
    }

    /// Moves the table selection one step up, stopping at the first one.
    pub fn previous_table(&mut self)
        requires
            old(self).wf(),
        ensures
            final(self).wf(),
            final(self)@ == (AppStateView {
                selected_table: step_previous(old(self)@.selected_table),
                ..old(self)@
            }),
    {
        if let Some(selected) = self.selected_table {
            if selected > 0 {
                self.selected_table = Some(selected - 1);
            }
        }
    }

    /// Replaces the table list wholesale and selects its first entry, if any.
    pub fn set_tables(&mut self, tables: Vec<String>)
        requires
            old(self).wf(),
        ensures
            final(self).wf(),
            final(self)@ == old(self)@.with_tables(strings_view(tables@)),
    {
        self.selected_table = if tables.len() == 0 {
            None
        } else {
            Some(0usize)
        };
        self.tables = tables;
    }

    /// Appends one character to the end of the query buffer.
    pub fn push_query_char(&mut self, c: char)
        requires
            old(self).wf(),
        ensures
            final(self).wf(),
            final(self)@ == old(self)@.with_pushed(c),
    {
        self.query.push(c);
    }

    /// Removes the last character of the query buffer; an empty buffer stays
    /// as it is.
    pub fn pop_query_char(&mut self)
        requires
            old(self).wf(),
        ensures
            final(self).wf(),
            final(self)@ == old(self)@.with_popped(),
    {
        if self.query.len() > 0 {
            let _ = self.query.pop();
        }
    }

    /// Stores an outcome in the result panel, replacing whatever was there.
    pub fn set_result(&mut self, result: QueryResult)
        requires
            old(self).wf(),
        ensures
            final(self).wf(),
            final(self)@ == (AppStateView { query_result: result@, ..old(self)@ }),
    {
        self.query_result = result;
    }

    /// Gives the keyboard focus to `pane`.
    pub fn set_focus(&mut self, pane: Pane)
        requires
            old(self).wf(),
        ensures
            final(self).wf(),
            final(self)@ == (AppStateView { focused_pane: pane, ..old(self)@ }),
    {
        self.focused_pane = pane;
    }

    /// The name of the selected database, if one is selected.
    pub fn selected_database_name(&self) -> (r: Option<&String>)
        requires
            self.wf(),
        ensures
            match self@.selected_database {
                Some(i) => r.is_some() && r.unwrap()@ == self@.databases[i as int],
                None => r.is_none(),
            },
    {
        match self.selected_database {
            Some(i) => Some(&self.databases[i]),
            None => None,
        }
    }
}

} // verus!
