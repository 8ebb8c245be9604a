use vstd::prelude::*;
use vstd::string::StrSliceExecFns;

use ratatui::layout::{Constraint, Direction, Layout, Rect};

use crate::state::{rows_view, strings_view, AppState, AppStateView, Pane, QueryResult, ResultView};

verus! {

/// The label put before an error message in the result panel, so that it
/// cannot be taken for tabular output.
pub const ERROR_LABEL: &'static str = "Error: ";

/// The narrowest a result column is drawn.
pub const MIN_COLUMN_WIDTH: usize = 3;

/// A rectangle of terminal cells.
#[derive(Clone, Copy, Debug, PartialEq, Eq, Structural)]
pub struct Area {
    pub x: u16,
    pub y: u16,
    pub width: u16,
    pub height: u16,
}

/// The two areas that ratatui's layout solver gives for `area` cut in the
/// given direction by two percentage constraints.
pub uninterp spec fn split_of(area: Area, vertical: bool, first: u16, second: u16) -> (Area, Area);

/// Relies on ratatui's `Layout::split`: cuts `area` into two parts sized by
/// the percentages `first` and `second`; the result depends on these values
/// alone.
#[verifier::external_body]
fn split_two(area: Area, vertical: bool, first: u16, second: u16) -> (r: (Area, Area))
    ensures
        r == split_of(area, vertical, first, second),
{
    let direction = if vertical { Direction::Vertical } else { Direction::Horizontal };
    let parts = Layout::default()
        .direction(direction)
        .constraints([Constraint::Percentage(first), Constraint::Percentage(second)])
        .split(Rect::new(area.x, area.y, area.width, area.height));
    let (a, b) = (parts[0], parts[1]);
    (
        Area { x: a.x, y: a.y, width: a.width, height: a.height },
        Area { x: b.x, y: b.y, width: b.width, height: b.height },
    )
}

/// The width of cell `j` of row `i`, or nothing where a row is short.
pub open spec fn cell_width(rows: Seq<Seq<Seq<char>>>, i: int, j: int) -> nat {
    if 0 <= j < rows[i].len() {
        rows[i][j].len()
    } else {
        0
    }
}

/// The width of column `j` over the first `n` rows: its widest cell, but no
/// less than the minimum.
pub open spec fn column_width(rows: Seq<Seq<Seq<char>>>, j: int, n: nat) -> nat
    decreases n,
{
    if n == 0 {
        MIN_COLUMN_WIDTH as nat
    } else {
        let w = column_width(rows, j, (n - 1) as nat);
        let c = cell_width(rows, n - 1, j);
        if c > w {
            c
        } else {
            w
        }
    }
}

/// The number of columns: that of the first row.
pub open spec fn column_count(rows: Seq<Seq<Seq<char>>>) -> nat {
    if rows.len() == 0 {
        0
    } else {
        rows[0].len()
    }
}

/// One width per column, each sized to fit that column's content.
pub open spec fn grid_widths(rows: Seq<Seq<Seq<char>>>) -> Seq<nat> {
    Seq::new(column_count(rows), |j: int| column_width(rows, j, rows.len()))
}

/// A list panel: its items, which one is highlighted, and whether it has focus.
pub struct ListPanel<'a> {
    pub area: Area,
    pub items: &'a Vec<String>,
    pub highlighted: Option<usize>,
    pub focused: bool,
}

/// What the result panel shows.
pub enum ResultBody<'a> {
    Blank,
    Grid { rows: &'a Vec<Vec<String>>, widths: Vec<usize> },
    /// An error message, drawn as text after `ERROR_LABEL`.
    Failure(&'a String),
}

pub struct ResultPanel<'a> {
    pub area: Area,
    pub body: ResultBody<'a>,
    pub focused: bool,
}

pub struct QueryPanel<'a> {
    pub area: Area,
    pub text: &'a Vec<char>,
    pub focused: bool,
}

/// The layout of one screen, ready to be drawn.
pub struct Frame<'a> {
    pub databases: ListPanel<'a>,
    pub tables: ListPanel<'a>,
    pub results: ResultPanel<'a>,
    pub query: QueryPanel<'a>,
}

pub ghost struct ListPanelView {
    pub area: Area,
    pub items: Seq<Seq<char>>,
    pub highlighted: Option<usize>,
    pub focused: bool,
}

pub ghost enum ResultBodyView {
    Blank,
    Grid { rows: Seq<Seq<Seq<char>>>, widths: Seq<nat> },
    Failure(Seq<char>),
}

pub ghost struct ResultPanelView {
    pub area: Area,
    pub body: ResultBodyView,
    pub focused: bool,
}

pub ghost struct QueryPanelView {
    pub area: Area,
    pub text: Seq<char>,
    pub focused: bool,
}

pub ghost struct FrameView {
    pub databases: ListPanelView,
    pub tables: ListPanelView,
    pub results: ResultPanelView,
    pub query: QueryPanelView,
}

pub open spec fn widths_view(w: Seq<usize>) -> Seq<nat> {
    w.map_values(|x: usize| x as nat)
}

impl<'a> View for Frame<'a> {
    type V = FrameView;

    open spec fn view(&self) -> FrameView {
        FrameView {
            databases: ListPanelView {
                area: self.databases.area,
                items: strings_view(self.databases.items@),
                highlighted: self.databases.highlighted,
                focused: self.databases.focused,
            },
            tables: ListPanelView {
                area: self.tables.area,
                items: strings_view(self.tables.items@),
                highlighted: self.tables.highlighted,
                focused: self.tables.focused,
            },
            results: ResultPanelView {
                area: self.results.area,
                body: match self.results.body {
                    ResultBody::Blank => ResultBodyView::Blank,
                    ResultBody::Grid { rows, widths } => ResultBodyView::Grid {
                        rows: rows_view(rows@),
                        widths: widths_view(widths@),
                    },
                    ResultBody::Failure(m) => ResultBodyView::Failure(m@),
                },
                focused: self.results.focused,
            },
            query: QueryPanelView {
                area: self.query.area,
                text: self.query.text@,
                focused: self.query.focused,
            },
        }
    }
}

/// The result panel's content for a stored result.
pub open spec fn body_of(r: ResultView) -> ResultBodyView {
    match r {
        ResultView::Empty => ResultBodyView::Blank,
        ResultView::Table(rows) => ResultBodyView::Grid { rows, widths: grid_widths(rows) },
        ResultView::Failure(m) => ResultBodyView::Failure(m),
    }
}

/// The screen for state `s` on a terminal of size `screen`: a left column
/// (a fifth of the width) with the database list over the table list, and a
/// right column with the results over the query editor.
pub open spec fn compose_spec(s: AppStateView, screen: Area) -> FrameView {
    let (left, right) = split_of(screen, false, 20, 80);
    let (db_area, table_area) = split_of(left, true, 50, 50);
    let (result_area, query_area) = split_of(right, true, 90, 10);
    FrameView {
        databases: ListPanelView {
            area: db_area,
            items: s.databases,
            highlighted: s.selected_database,
            focused: s.focused_pane == Pane::DatabaseList,
        },
        tables: ListPanelView {
            area: table_area,
            items: s.tables,
            highlighted: s.selected_table,
            focused: s.focused_pane == Pane::TableList,
        },
        results: ResultPanelView {
            area: result_area,
            body: body_of(s.query_result),
            focused: s.focused_pane == Pane::ResultView,
        },
        query: QueryPanelView {
            area: query_area,
            text: s.query,
            focused: s.focused_pane == Pane::QueryEditor,
        },
    }
}

/// The width of each column of `rows`, sized to fit its widest cell.
pub fn column_widths(rows: &Vec<Vec<String>>) -> (w: Vec<usize>)
    ensures
        widths_view(w@) == grid_widths(rows_view(rows@)),
{
    let ghost rv = rows_view(rows@);
    let cols: usize = if rows.len() == 0 {
        0
    } else {
        rows[0].len()
    };
    let mut w: Vec<usize> = Vec::new();
    let mut j: usize = 0;
    while j < cols
        invariant
            cols == column_count(rv),
            rv == rows_view(rows@),
            j <= cols,
            widths_view(w@) =~= grid_widths(rv).take(j as int),
        decreases cols - j,
    {
        let mut m: usize = MIN_COLUMN_WIDTH;
        let mut i: usize = 0;
        while i < rows.len()
            invariant
                rv == rows_view(rows@),
                i <= rows@.len(),
                m as nat == column_width(rv, j as int, i as nat),
            decreases rows@.len() - i,
        {
            if j < rows[i].len() {
                let n = rows[i][j].as_str().unicode_len();
                if n > m {
                    m = n;
                }
            }
            i = i + 1;
        }
        assert(rv.len() == rows@.len());
        assert(m as nat == grid_widths(rv)[j as int]);
        let ghost before = w@;
        w.push(m);
        assert(widths_view(w@) =~= widths_view(before).push(m as nat));
        assert(grid_widths(rv).take(j + 1) =~= grid_widths(rv).take(j as int).push(m as nat));
        j = j + 1;
    }
    w
}

fn body_for(r: &QueryResult) -> (b: ResultBody)
    ensures
        match b {
            ResultBody::Blank => body_of(r@) == ResultBodyView::Blank,
            ResultBody::Grid { rows, widths } => body_of(r@) == (ResultBodyView::Grid {
                rows: rows_view(rows@),
                widths: widths_view(widths@),
            }),
            ResultBody::Failure(m) => body_of(r@) == ResultBodyView::Failure(m@),
        },
{
    match r {
        QueryResult::Empty => ResultBody::Blank,
        QueryResult::Table(rows) => ResultBody::Grid { rows, widths: column_widths(rows) },
        QueryResult::Failure(m) => ResultBody::Failure(m),
    }
}

/// Lays out the screen for the current state; the same state and screen
/// always give the same frame.
pub fn compose<'a>(s: &'a AppState, screen: Area) -> (f: Frame<'a>)
    requires
        s.wf(),
    ensures
        f@ == compose_spec(s@, screen),
{
    let (left, right) = split_two(screen, false, 20, 80);
    let (db_area, table_area) = split_two(left, true, 50, 50);
    let (result_area, query_area) = split_two(right, true, 90, 10);
    Frame {
        databases: ListPanel {
            area: db_area,
            items: &s.databases,
            highlighted: s.selected_database,
            focused: s.focused_pane == Pane::DatabaseList,
        },
        tables: ListPanel {
            area: table_area,
            items: &s.tables,
            highlighted: s.selected_table,
            focused: s.focused_pane == Pane::TableList,
        },
        results: ResultPanel {
            area: result_area,
            body: body_for(&s.query_result),
            focused: s.focused_pane == Pane::ResultView,
        },
        query: QueryPanel {
            area: query_area,
            text: &s.query,
            focused: s.focused_pane == Pane::QueryEditor,
        },
    }
}

} // verus!
