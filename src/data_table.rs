//! The result table model: pagination, selection, horizontal scroll,
//! column widths, the loading state and the text handed to the clipboard.

use vstd::prelude::*;
use vstd::string::*;
use crate::cell::{cell_at, cell_text, cell_text_of, CellValue};
use crate::command::Command;
use crate::state::QueryHistoryEntry;
use crate::text::{
    decimal, decimal_text, display_width, fields_text, is_null_text, is_null_word, join2, join3, opt_text,
    pretty_json_object, pretty_object_json, text_width, contains_seq, contains_text, lower_of, lowercase,
};

verus! {

/// Rows per page.
pub const PAGE_SIZE: usize = 100;

/// Rows sampled, from the first, when column widths are computed.
pub const WIDTH_SAMPLE_ROWS: usize = 100;

/// The narrowest a freshly computed column is.
pub const MIN_COLUMN_WIDTH: u16 = 3;

/// The display tabs: data output, messages, query history.
pub const TAB_COUNT: usize = 3;

pub const DATA_TAB: usize = 0;

pub const MESSAGES_TAB: usize = 1;

pub const HISTORY_TAB: usize = 2;

/// The number of color palettes the table cycles through.
pub const COLOR_COUNT: usize = 4;

/// Where the table stands with respect to the query it shows.
#[derive(Clone, Debug)]
pub enum LoadingState {
    Idle,
    Loading,
    Error(String),
}

/// The number of pages for `n` rows; no rows still make one page.
pub open spec fn total_pages_of(n: nat) -> nat {
    if n == 0 {
        1
    } else if n % (PAGE_SIZE as nat) == 0 {
        n / (PAGE_SIZE as nat)
    } else {
        n / (PAGE_SIZE as nat) + 1
    }
}

/// The number of rows on page `page` of `n` rows.
pub open spec fn page_len(n: nat, page: nat) -> nat {
    let start = page * PAGE_SIZE as nat;
    if n <= start {
        0
    } else if n - start < PAGE_SIZE {
        (n - start) as nat
    } else {
        PAGE_SIZE as nat
    }
}

/// The widest of column `c`'s header and its cells in the first `k` rows.
pub open spec fn widest(headers: Seq<String>, rows: Seq<Vec<CellValue>>, c: int, k: nat) -> nat
    decreases k,
{
    if k == 0 {
        display_width(headers[c]@)
    } else {
        let w = widest(headers, rows, c, (k - 1) as nat);
        let cw = display_width(cell_text_of(cell_at(rows[k - 1]@, c)));
        if cw > w {
            cw
        } else {
            w
        }
    }
}

/// The width of a freshly computed column: the widest of header and sampled
/// cells plus two, at least three, and at most what a `u16` holds.
pub open spec fn fresh_column_width(headers: Seq<String>, rows: Seq<Vec<CellValue>>, c: int) -> int {
    let k = if rows.len() < WIDTH_SAMPLE_ROWS { rows.len() } else { WIDTH_SAMPLE_ROWS as nat };
    let w = widest(headers, rows, c, k) as int + 2;
    if w > u16::MAX {
        u16::MAX as int
    } else if w < MIN_COLUMN_WIDTH {
        MIN_COLUMN_WIDTH as int
    } else {
        w
    }
}

/// `widths` holds the fresh width of every column.
pub open spec fn fresh_widths(widths: Seq<u16>, headers: Seq<String>, rows: Seq<Vec<CellValue>>) -> bool {
    &&& widths.len() == headers.len()
    &&& forall|c: int| 0 <= c < widths.len() ==> widths[c] as int == #[trigger] fresh_column_width(headers, rows, c)
}

/// `r` clamped to the last of `n` rows.
pub open spec fn clamp_row(r: nat, n: nat) -> nat {
    if r < n {
        r
    } else {
        (n - 1) as nat
    }
}

/// The table after `next_row`.
pub open spec fn after_next_row(t: DataTable) -> DataTable {
    if t.rows@.len() == 0 {
        t
    } else {
        DataTable {
            selected_row: Some(match t.selected_row {
                Some(i) => if i + 1 >= page_len(t.rows@.len(), t.current_page as nat) { 0 } else { (i + 1) as usize },
                None => 0,
            }),
            ..t
        }
    }
}

/// The table after `previous_row`.
pub open spec fn after_previous_row(t: DataTable) -> DataTable {
    if t.rows@.len() == 0 {
        t
    } else {
        DataTable {
            selected_row: Some(match t.selected_row {
                Some(i) => if i == 0 { (page_len(t.rows@.len(), t.current_page as nat) - 1) as usize } else { (i - 1) as usize },
                None => 0,
            }),
            ..t
        }
    }
}

/// The table after `next_history_row`.
pub open spec fn after_next_history_row(t: DataTable) -> DataTable {
    if t.query_history@.len() == 0 {
        t
    } else {
        DataTable {
            history_selected: Some(match t.history_selected {
                Some(i) => if i + 1 >= t.query_history@.len() { 0 } else { (i + 1) as usize },
                None => 0,
            }),
            ..t
        }
    }
}

/// The table after `previous_history_row`.
pub open spec fn after_previous_history_row(t: DataTable) -> DataTable {
    if t.query_history@.len() == 0 {
        t
    } else {
        DataTable {
            history_selected: Some(match t.history_selected {
                Some(i) => if i == 0 { (t.query_history@.len() - 1) as usize } else { (i - 1) as usize },
                None => 0,
            }),
            ..t
        }
    }
}

/// The table after `next_column`.
pub open spec fn after_next_column(t: DataTable) -> DataTable {
    DataTable {
        selected_column: Some(match t.selected_column {
            Some(c) => if c < t.headers@.len() { (c + 1) as usize } else { c },
            None => 0,
        }),
        ..t
    }
}

/// The table after `previous_column`.
pub open spec fn after_previous_column(t: DataTable) -> DataTable {
    DataTable {
        selected_column: Some(match t.selected_column {
            Some(c) => if c > 0 { (c - 1) as usize } else { 0 },
            None => t.headers@.len() as usize,
        }),
        ..t
    }
}

/// The table after `scroll_right`.
pub open spec fn after_scroll_right(t: DataTable) -> DataTable {
    DataTable {
        horizontal_scroll: if t.horizontal_scroll + 1 < t.column_widths@.len() {
            (t.horizontal_scroll + 1) as usize
        } else {
            t.horizontal_scroll
        },
        ..t
    }
}

/// The table after `scroll_left`.
pub open spec fn after_scroll_left(t: DataTable) -> DataTable {
    DataTable {
        horizontal_scroll: if t.horizontal_scroll > 0 {
            (t.horizontal_scroll - 1) as usize
        } else {
            0
        },
        ..t
    }
}

/// The table after `next_page`.
pub open spec fn after_next_page(t: DataTable) -> DataTable {
    if t.current_page + 1 < total_pages_of(t.rows@.len()) {
        DataTable {
            current_page: (t.current_page + 1) as usize,
            selected_row: Some(0usize),
            ..t
        }
    } else {
        t
    }
}

/// The table after `previous_page`.
pub open spec fn after_previous_page(t: DataTable) -> DataTable {
    if t.current_page > 0 {
        DataTable {
            current_page: (t.current_page - 1) as usize,
            selected_row: Some(0usize),
            ..t
        }
    } else {
        t
    }
}

/// The table after `next_color`.
pub open spec fn after_next_color(t: DataTable) -> DataTable {
    DataTable { color_index: ((t.color_index + 1) % COLOR_COUNT as int) as usize, ..t }
}

/// The table after `previous_color`.
pub open spec fn after_previous_color(t: DataTable) -> DataTable {
    DataTable {
        color_index: ((t.color_index + COLOR_COUNT - 1) % COLOR_COUNT as int) as usize,
        ..t
    }
}

/// The table after `jump_to_absolute_row(r)`.
pub open spec fn after_jump_to_row(t: DataTable, r: usize) -> DataTable {
    if t.rows@.len() == 0 {
        t
    } else {
        let target = clamp_row(r as nat, t.rows@.len());
        DataTable {
            current_page: (target / PAGE_SIZE as nat) as usize,
            selected_row: Some((target % PAGE_SIZE as nat) as usize),
            ..t
        }
    }
}

/// The text that copying the selected cell yields: the 1-based row number
/// for the row-number column, else the cell of data column
/// `column - 1 + horizontal_scroll` of the selected row.
pub open spec fn selected_cell_text(t: DataTable) -> Option<Seq<char>> {
    match (t.selected_row, t.selected_column) {
        (Some(r), Some(c)) => {
            let abs = t.current_page * PAGE_SIZE + r;
            if abs >= t.rows@.len() {
                None
            } else if c == 0 {
                Some(decimal((abs + 1) as nat))
            } else if c - 1 + t.horizontal_scroll < t.rows@[abs]@.len() {
                Some(cell_text_of(t.rows@[abs]@[c - 1 + t.horizontal_scroll]))
            } else {
                None
            }
        },
        _ => None,
    }
}

/// The members of a row as a header-keyed object; cells reading `null` or
/// `[null]` in any case become a true null.
pub open spec fn row_fields(headers: Seq<String>, row: Seq<CellValue>) -> Seq<(Seq<char>, Option<Seq<char>>)> {
    Seq::new(
        headers.len(),
        |i: int|
            {
                let v = cell_text_of(cell_at(row, i));
                (headers[i]@, if is_null_word(v) { None } else { Some(v) })
            },
    )
}

/// The JSON text that copying the selected row yields.
pub open spec fn selected_row_json(t: DataTable) -> Option<Seq<char>> {
    match t.selected_row {
        Some(r) => {
            let abs = t.current_page * PAGE_SIZE + r;
            if abs < t.rows@.len() {
                Some(pretty_json_object(row_fields(t.headers@, t.rows@[abs]@)))
            } else {
                None
            }
        },
        None => None,
    }
}

/// The query of the selected history row; rows count from the most recent entry.
pub open spec fn selected_history_query(t: DataTable) -> Option<Seq<char>> {
    match t.history_selected {
        Some(i) => if i < t.query_history@.len() {
            Some(t.query_history@[t.query_history@.len() - 1 - i].query@)
        } else {
            None
        },
        None => None,
    }
}

/// The data column that the selected displayed column targets.
pub open spec fn selected_data_column(t: DataTable) -> Option<int> {
    match t.selected_column {
        Some(c) => if c >= 1 { Some(c - 1 + t.horizontal_scroll) } else { None },
        None => None,
    }
}

/// A width moved by `delta`, kept at or above `floor` and within a `u16`.
pub open spec fn adjusted_width(w: u16, delta: int, floor: u16) -> u16 {
    let x = w + delta;
    let y = if x < floor { floor as int } else { x };
    if y > u16::MAX { u16::MAX } else { y as u16 }
}

/// `after` is `before` with the targeted column's width moved by `delta`;
/// without a targeted data column, nothing changes.
pub open spec fn width_adjusted(before: DataTable, after: DataTable, delta: int) -> bool {
    match selected_data_column(before) {
        Some(d) => if d < before.column_widths@.len() {
            &&& after.column_widths@ == before.column_widths@.update(
                d,
                adjusted_width(before.column_widths@[d], delta, before.min_column_widths@[d]),
            )
            &&& after == (DataTable { column_widths: after.column_widths, ..before })
        } else {
            after == before
        },
        None => after == before,
    }
}

/// After a copy: with a text, the clipboard gets it and the status reads
/// `prefix` followed by it; without one, nothing changes.
pub open spec fn copy_outcome(
    before: DataTable,
    after: DataTable,
    clip: Option<String>,
    text: Option<Seq<char>>,
    prefix: Seq<char>,
) -> bool {
    match text {
        Some(x) => {
            &&& clip matches Some(c) && c@ == x
            &&& after.status_message matches Some(m) && m@ == prefix + x
            &&& after == (DataTable { status_message: after.status_message, ..before })
        },
        None => clip is None && after == before,
    }
}

/// The text of an optional string.
pub open spec fn opt_text_of(o: Option<String>) -> Option<Seq<char>> {
    match o {
        Some(s) => Some(s@),
        None => None,
    }
}

/// What a table command does: `after` is the table that follows `before`,
/// and `r` is the text handed to the clipboard.
pub open spec fn table_command_effect(before: DataTable, after: DataTable, command: Command, r: Option<String>) -> bool {
    match command {
        Command::DataTablePreviousTab => r is None && after == (DataTable {
            tab_index: ((before.tab_index + TAB_COUNT - 1) % TAB_COUNT as int) as usize,
            ..before
        }),
        Command::DataTableNextTab => r is None && after == (DataTable {
            tab_index: ((before.tab_index + 1) % TAB_COUNT as int) as usize,
            ..before
        }),
        Command::DataTableNextRow => r is None && after == after_next_row(before),
        Command::DataTablePreviousRow => r is None && after == after_previous_row(before),
        Command::DataTableNextHistoryRow => r is None && after == after_next_history_row(before),
        Command::DataTablePreviousHistoryRow => r is None && after == after_previous_history_row(before),
        Command::DataTableScrollRight => r is None && after == after_scroll_right(before),
        Command::DataTableScrollLeft => r is None && after == after_scroll_left(before),
        Command::DataTableNextColor => r is None && after == after_next_color(before),
        Command::DataTablePreviousColor => r is None && after == after_previous_color(before),
        Command::DataTableNextPage => r is None && after == after_next_page(before),
        Command::DataTablePreviousPage => r is None && after == after_previous_page(before),
        Command::DataTableJumpToFirstRow => r is None && after == after_jump_to_row(before, 0),
        Command::DataTableJumpToLastRow => r is None && after == after_jump_to_row(
            before,
            if before.rows@.len() == 0 { 0 } else { (before.rows@.len() - 1) as usize },
        ),
        Command::DataTableNextColumn => r is None && after == after_next_column(before),
        Command::DataTablePreviousColumn => r is None && after == after_previous_column(before),
        Command::DataTableAdjustColumnWidthIncrease => r is None && width_adjusted(before, after, 1),
        Command::DataTableAdjustColumnWidthDecrease => r is None && width_adjusted(before, after, -1),
        Command::DataTableCopySelectedCell => copy_outcome(
            before,
            after,
            r,
            selected_cell_text(before),
            "Copied: "@,
        ),
        Command::DataTableCopySelectedRow => copy_outcome(
            before,
            after,
            r,
            selected_row_json(before),
            "Copied row: "@,
        ),
        Command::DataTableCopyQueryToEditor => copy_outcome(
            before,
            after,
            r,
            selected_history_query(before),
            "Copied query: "@,
        ),
        Command::DataTableRunSelectedHistoryQuery => copy_outcome(
            before,
            after,
            r,
            selected_history_query(before),
            "Running query: "@,
        ),
        Command::DataTableSetTabIndex(i) => r is None && after == (if i < TAB_COUNT {
            DataTable { tab_index: i, ..before }
        } else {
            before
        }),
        _ => r is None && after == before,
    }
}

/// The text of cell (`i`, `c`) contains `q`, both in lowercase.
pub open spec fn cell_matches(t: DataTable, i: int, c: int, q: Seq<char>) -> bool {
    contains_seq(lower_of(cell_text_of(cell_at(t.rows@[i]@, c))), lower_of(q))
}

/// No cell before (`i`, `c`), in row-major order over the header columns, matches `q`.
pub open spec fn no_match_before(t: DataTable, i: int, c: int, q: Seq<char>) -> bool {
    forall|i2: int, c2: int|
        0 <= i2 <= i && 0 <= c2 < t.headers@.len() && (i2 < i || c2 < c) ==> !#[trigger] cell_matches(t, i2, c2, q)
}

/// The paginated, selectable table of the current result set.
pub struct DataTable {
    pub headers: Vec<String>,
    pub rows: Vec<Vec<CellValue>>,
    pub query_history: Vec<QueryHistoryEntry>,
    pub column_widths: Vec<u16>,
    pub min_column_widths: Vec<u16>,
    /// The selected row, counted from the top of the current page.
    pub selected_row: Option<usize>,
    /// The selected displayed column; column 0 is the row-number column.
    pub selected_column: Option<usize>,
    /// The selected history row, counted from the most recent entry.
    pub history_selected: Option<usize>,
    /// The first data column shown.
    pub horizontal_scroll: usize,
    pub color_index: usize,
    pub tab_index: usize,
    pub status_message: Option<String>,
    /// Elapsed time of the query shown, in milliseconds.
    pub elapsed: u64,
    pub current_page: usize,
    pub loading_state: LoadingState,
}

fn compute_column_width(headers: &Vec<String>, rows: &Vec<Vec<CellValue>>, c: usize) -> (r: u16)
    requires
        c < headers@.len(),
    ensures
        r as int == fresh_column_width(headers@, rows@, c as int),
{
    let sample = if rows.len() < WIDTH_SAMPLE_ROWS { rows.len() } else { WIDTH_SAMPLE_ROWS };
    let mut w = text_width(headers[c].as_str());
    let mut k: usize = 0;
    while k < sample
        invariant
            k <= sample,
            sample as nat == (if rows@.len() < WIDTH_SAMPLE_ROWS { rows@.len() } else { WIDTH_SAMPLE_ROWS as nat }),
            c < headers@.len(),
            w as nat == widest(headers@, rows@, c as int, k as nat),
        decreases sample - k,
    {
        let t = cell_text(&rows[k], c);
        let cw = text_width(t.as_str());
        if cw > w {
            w = cw;
        }
        k += 1;
    }
    if w >= 65533 {
        u16::MAX
    } else if w + 2 < 3 {
        MIN_COLUMN_WIDTH
    } else {
        (w + 2) as u16
    }
}

impl DataTable {
    /// The model's invariant.
    pub open spec fn wf(&self) -> bool {
        let n = self.rows@.len();
        &&& self.column_widths@.len() == self.headers@.len()
        &&& self.min_column_widths@.len() == self.headers@.len()
        &&& self.tab_index < TAB_COUNT
        &&& self.color_index < COLOR_COUNT
        &&& (n == 0 ==> self.current_page == 0 && self.selected_row is None)
        &&& (n > 0 ==> self.current_page * PAGE_SIZE < n)
        &&& (self.selected_row matches Some(r) ==> r < page_len(n, self.current_page as nat))
        &&& (self.horizontal_scroll == 0 || self.horizontal_scroll < self.column_widths@.len())
        &&& (self.selected_column matches Some(c) ==> c <= self.headers@.len())
    }

    /// The widths of a freshly loaded result: one per header, the second
    /// list being the floor that later adjustments keep to.
    pub fn calculate_column_widths(headers: &Vec<String>, rows: &Vec<Vec<CellValue>>) -> (r: (Vec<u16>, Vec<u16>))
        ensures
            fresh_widths(r.0@, headers@, rows@),
            r.1@ == r.0@,
    {
        let mut widths: Vec<u16> = Vec::new();
        let mut c: usize = 0;
        while c < headers.len()
            invariant
                c <= headers@.len(),
                widths@.len() == c,
                forall|j: int| 0 <= j < c ==> widths@[j] as int == #[trigger] fresh_column_width(headers@, rows@, j),
            decreases headers@.len() - c,
        {
            let w = compute_column_width(headers, rows, c);
            widths.push(w);
            c += 1;
        }
        let mut floors: Vec<u16> = Vec::new();
        let mut j: usize = 0;
        while j < widths.len()
            invariant
                j <= widths@.len(),
                floors@ == widths@.take(j as int),
            decreases widths@.len() - j,
        {
            floors.push(widths[j]);
            proof {
                assert(widths@.take(j + 1) =~= widths@.take(j as int).push(widths@[j as int]));
            }
            j += 1;
        }
        proof {
            assert(widths@.take(j as int) =~= widths@);
        }
        (widths, floors)
    }

    /// A table showing `rows` under `headers`: first page, first row selected
    /// when there is one, and the messages tab when there is none.
    pub fn new(headers: Vec<String>, rows: Vec<Vec<CellValue>>, query_history: Vec<QueryHistoryEntry>) -> (r: DataTable)
        ensures
            r.wf(),
            r.headers == headers,
            r.rows == rows,
            r.query_history == query_history,
            fresh_widths(r.column_widths@, headers@, rows@),
            r.min_column_widths@ == r.column_widths@,
            r.current_page == 0,
            r.selected_row == (if rows@.len() == 0 { None } else { Some(0usize) }),
            r.selected_column is None,
            r.history_selected is None,
            r.horizontal_scroll == 0,
            r.color_index == 0,
            r.tab_index == (if rows@.len() == 0 { MESSAGES_TAB } else { DATA_TAB }),
            r.status_message is None,
            r.elapsed == 0,
            r.loading_state is Idle,
    {
        let (column_widths, min_column_widths) = DataTable::calculate_column_widths(&headers, &rows);
        let empty = rows.len() == 0;
        DataTable {
            headers,
            rows,
            query_history,
            column_widths,
            min_column_widths,
            selected_row: if empty { None } else { Some(0) },
            selected_column: None,
            history_selected: None,
            horizontal_scroll: 0,
            color_index: 0,
            tab_index: if empty { MESSAGES_TAB } else { DATA_TAB },
            status_message: None,
            elapsed: 0,
            current_page: 0,
            loading_state: LoadingState::Idle,
        }
    }

    /// Whether the result has no rows.
    pub fn is_empty(&self) -> (r: bool)
        ensures
            r == (self.rows@.len() == 0),
    {
        self.rows.len() == 0
    }

    /// The number of pages, one when there are no rows.
    pub fn total_pages(&self) -> (r: usize)
        ensures
            r as nat == total_pages_of(self.rows@.len()),
    {
        let n = self.rows.len();
        if n == 0 {
            1
        } else if n % PAGE_SIZE == 0 {
            n / PAGE_SIZE
        } else {
            n / PAGE_SIZE + 1
        }
    }

    /// Selects the next row of the page, wrapping to its first row.
    pub fn next_row(&mut self)
        requires
            old(self).wf(),
        ensures
            final(self).wf(),
            *final(self) == after_next_row(*old(self)),
    {
        if self.is_empty() {
            return;
        }
        let len = self.current_page_len();
        let i = match self.selected_row {
            Some(i) => if i + 1 >= len { 0 } else { i + 1 },
            None => 0,
        };
        self.selected_row = Some(i);
    }

    /// Selects the previous row of the page, wrapping to its last row.
    pub fn previous_row(&mut self)
        requires
            old(self).wf(),
        ensures
            final(self).wf(),
            *final(self) == after_previous_row(*old(self)),
    {
        if self.is_empty() {
            return;
        }
        let len = self.current_page_len();
        let i = match self.selected_row {
            Some(i) => if i == 0 { len - 1 } else { i - 1 },
            None => 0,
        };
        self.selected_row = Some(i);
    }

    /// Selects the next (older) history row, wrapping to the most recent.
    pub fn next_history_row(&mut self)
        requires
            old(self).wf(),
        ensures
            final(self).wf(),
            *final(self) == after_next_history_row(*old(self)),
    {
        let n = self.query_history.len();
        if n == 0 {
            return;
        }
        let i = match self.history_selected {
            Some(i) => if i >= n - 1 { 0 } else { i + 1 },
            None => 0,
        };
        self.history_selected = Some(i);
    }

    /// Selects the previous (more recent) history row, wrapping to the oldest.
    pub fn previous_history_row(&mut self)
        requires
            old(self).wf(),
        ensures
            final(self).wf(),
            *final(self) == after_previous_history_row(*old(self)),
    {
        let n = self.query_history.len();
        if n == 0 {
            return;
        }
        let i = match self.history_selected {
            Some(i) => if i == 0 { n - 1 } else { i - 1 },
            None => 0,
        };
        self.history_selected = Some(i);
    }

    /// Selects the next displayed column, up to the last data column.
    pub fn next_column(&mut self)
        requires
            old(self).wf(),
        ensures
            final(self).wf(),
            *final(self) == after_next_column(*old(self)),
    {
        let c = match self.selected_column {
            Some(c) => if c < self.headers.len() { c + 1 } else { c },
            None => 0,
        };
        self.selected_column = Some(c);
    }

    /// Selects the previous displayed column; with none selected, the last.
    pub fn previous_column(&mut self)
        requires
            old(self).wf(),
        ensures
            final(self).wf(),
            *final(self) == after_previous_column(*old(self)),
    {
        let c = match self.selected_column {
            Some(c) => if c > 0 { c - 1 } else { 0 },
            None => self.headers.len(),
        };
        self.selected_column = Some(c);
    }

    /// Shows one more column to the left, as far as the last column.
    pub fn scroll_right(&mut self)
        requires
            old(self).wf(),
        ensures
            final(self).wf(),
            *final(self) == after_scroll_right(*old(self)),
    {
        let n = self.column_widths.len();
        if n > 0 && self.horizontal_scroll < n - 1 {
            self.horizontal_scroll = self.horizontal_scroll + 1;
        }
    }

    /// Shows one more column to the right, as far as the first column.
    pub fn scroll_left(&mut self)
        requires
            old(self).wf(),
        ensures
            final(self).wf(),
            *final(self) == after_scroll_left(*old(self)),
    {
        if self.horizontal_scroll > 0 {
            self.horizontal_scroll = self.horizontal_scroll - 1;
        }
    }

    /// Moves to the next page and its first row; on the last page, nothing changes.
    pub fn next_page(&mut self)
        requires
            old(self).wf(),
        ensures
            final(self).wf(),
            *final(self) == after_next_page(*old(self)),
    {
        let pages = self.total_pages();
        if self.current_page + 1 < pages {
            proof {
                let n = self.rows@.len();
                let p = self.current_page as nat;
                assert((p + 1) * PAGE_SIZE < n) by (nonlinear_arith)
                    requires
                        p + 1 < total_pages_of(n),
                        n > 0,
                        total_pages_of(n) == (if n % 100 == 0 { n / 100 } else { n / 100 + 1 }),
                        PAGE_SIZE == 100,
                ;
            }
            self.current_page = self.current_page + 1;
            self.selected_row = Some(0);
        }
    }

    /// Moves to the previous page and its first row; on the first page, nothing changes.
    pub fn previous_page(&mut self)
        requires
            old(self).wf(),
        ensures
            final(self).wf(),
            *final(self) == after_previous_page(*old(self)),
    {
        if self.current_page > 0 {
            self.current_page = self.current_page - 1;
            self.selected_row = Some(0);
        }
    }

    /// Cycles forward through the color palettes.
    pub fn next_color(&mut self)
        requires
            old(self).wf(),
        ensures
            final(self).wf(),
            *final(self) == after_next_color(*old(self)),
    {
        self.color_index = (self.color_index + 1) % COLOR_COUNT;
    }

    /// Cycles backward through the color palettes.
    pub fn previous_color(&mut self)
        requires
            old(self).wf(),
        ensures
            final(self).wf(),
            *final(self) == after_previous_color(*old(self)),
    {
        self.color_index = (self.color_index + COLOR_COUNT - 1) % COLOR_COUNT;
    }

    /// Goes to the page holding row `absolute_row` (clamped to the last row)
    /// and selects it there; with no rows, nothing changes.
    pub fn jump_to_absolute_row(&mut self, absolute_row: usize)
        requires
            old(self).wf(),
        ensures
            final(self).wf(),
            *final(self) == after_jump_to_row(*old(self), absolute_row),
    {
        let n = self.rows.len();
        if n == 0 {
            return;
        }
        let target = if absolute_row < n - 1 { absolute_row } else { n - 1 };
        let page = target / PAGE_SIZE;
        let row = target % PAGE_SIZE;
        proof {
            assert(page * PAGE_SIZE + row == target && row < PAGE_SIZE) by (nonlinear_arith)
                requires page == target / 100, row == target % 100, PAGE_SIZE == 100;
        }
        self.current_page = page;
        self.selected_row = Some(row);
    }

    /// Scrolls so that data column `col` is the first shown, if it exists.
    pub fn jump_to_column(&mut self, col: usize)
        requires
            old(self).wf(),
        ensures
            final(self).wf(),
            col < old(self).headers@.len() ==> *final(self) == (DataTable { horizontal_scroll: col, ..*old(self) }),
            col >= old(self).headers@.len() ==> *final(self) == *old(self),
    {
        if col < self.headers.len() {
            self.horizontal_scroll = col;
        }
    }

    /// The text of the selected cell, which the caller puts on the clipboard.
    pub fn copy_selected_cell(&self) -> (r: Option<String>)
        requires
            self.wf(),
        ensures
            opt_text_of(r) == selected_cell_text(*self),
    {
        let (row, col) = match (self.selected_row, self.selected_column) {
            (Some(row), Some(col)) => (row, col),
            _ => {
                return None;
            },
        };
        let n = self.rows.len();
        proof {
            assert(n > 0);
            assert(self.current_page * PAGE_SIZE + row < n);
        }
        let abs = self.current_page * PAGE_SIZE + row;
        if abs >= n {
            return None;
        }
        if col == 0 {
            return Some(decimal_text((abs + 1) as u64));
        }
        let cells = &self.rows[abs];
        if self.horizontal_scroll >= cells.len() || col - 1 >= cells.len() - self.horizontal_scroll {
            return None;
        }
        Some(cells[col - 1 + self.horizontal_scroll].display_text())
    }

    /// The selected row as a pretty-printed JSON object keyed by header,
    /// which the caller puts on the clipboard.
    pub fn copy_selected_row(&self) -> (r: Option<String>)
        requires
            self.wf(),
        ensures
            opt_text_of(r) == selected_row_json(*self),
    {
        let row = match self.selected_row {
            Some(row) => row,
            None => {
                return None;
            },
        };
        let n = self.rows.len();
        proof {
            assert(n > 0);
            assert(self.current_page * PAGE_SIZE + row < n);
        }
        let abs = self.current_page * PAGE_SIZE + row;
        if abs >= n {
            return None;
        }
        let cells = &self.rows[abs];
        let mut fields: Vec<(String, Option<String>)> = Vec::new();
        let mut i: usize = 0;
        while i < self.headers.len()
            invariant
                i <= self.headers@.len(),
                abs < self.rows@.len(),
                *cells == self.rows@[abs as int],
                fields_text(fields@) =~= row_fields(self.headers@, cells@).take(i as int),
            decreases self.headers@.len() - i,
        {
            let text = cell_text(cells, i);
            let value = if is_null_text(text.as_str()) { None } else { Some(text) };
            let ghost value_copy = value;
            let ghost before = fields@;
            fields.push((self.headers[i].clone(), value));
            proof {
                assert(fields_text(fields@) =~= fields_text(before).push((self.headers@[i as int]@, opt_text(value_copy))));
                assert(row_fields(self.headers@, cells@).take(i + 1) =~= row_fields(self.headers@, cells@).take(
                    i as int,
                ).push(row_fields(self.headers@, cells@)[i as int]));
            }
            i += 1;
        }
        proof {
            assert(row_fields(self.headers@, cells@).take(i as int) =~= row_fields(self.headers@, cells@));
        }
        Some(pretty_object_json(&fields))
    }

    /// The query of the selected history row, which the caller puts on the
    /// clipboard and into the editor.
    pub fn copy_selected_query_to_editor(&self) -> (r: Option<String>)
        ensures
            opt_text_of(r) == selected_history_query(*self),
    {
        self.get_selected_history_query()
    }

    /// The query of the selected history row.
    pub fn get_selected_history_query(&self) -> (r: Option<String>)
        ensures
            opt_text_of(r) == selected_history_query(*self),
    {
        match self.history_selected {
            Some(i) => if i < self.query_history.len() {
                Some(self.query_history[self.query_history.len() - 1 - i].query.clone())
            } else {
                None
            },
            None => None,
        }
    }

    /// Widens or narrows the targeted data column by `delta`, never below its floor.
    pub fn adjust_column_width(&mut self, delta: i16)
        requires
            old(self).wf(),
        ensures
            final(self).wf(),
            width_adjusted(*old(self), *final(self), delta as int),
    {
        let col = match self.selected_column {
            Some(c) => c,
            None => {
                return;
            },
        };
        let n = self.column_widths.len();
        if col == 0 || self.horizontal_scroll >= n || col - 1 >= n - self.horizontal_scroll {
            return;
        }
        let d = col - 1 + self.horizontal_scroll;
        let x = self.column_widths[d] as i32 + delta as i32;
        let floor = self.min_column_widths[d] as i32;
        let y = if x < floor { floor } else { x };
        let w: u16 = if y > 65535 { u16::MAX } else { y as u16 };
        self.column_widths.set(d, w);
    }

    /// Shows the loading state on the data tab, before a query runs.
    pub fn start_loading(&mut self)
        requires
            old(self).wf(),
        ensures
            final(self).wf(),
            *final(self) == (DataTable { tab_index: DATA_TAB, loading_state: LoadingState::Loading, ..*old(self) }),
    {
        self.tab_index = DATA_TAB;
        self.loading_state = LoadingState::Loading;
    }

    /// Shows a fresh result: widths recomputed, first page and first row,
    /// horizontal scroll and column selection reset, the data tab when there
    /// are rows and the messages tab when there are none.
    pub fn finish_loading(&mut self, headers: Vec<String>, rows: Vec<Vec<CellValue>>, elapsed: u64, query_history: Vec<QueryHistoryEntry>)
        requires
            old(self).wf(),
        ensures
            final(self).wf(),
            final(self).headers == headers,
            final(self).rows == rows,
            final(self).query_history == query_history,
            final(self).elapsed == elapsed,
            final(self).loading_state is Idle,
            final(self).status_message matches Some(m) && m@ == "Query complete in "@ + decimal(elapsed as nat) + " ms."@,
            fresh_widths(final(self).column_widths@, headers@, rows@),
            final(self).min_column_widths@ == final(self).column_widths@,
            final(self).selected_row == (if rows@.len() == 0 { None } else { Some(0usize) }),
            final(self).selected_column is None,
            final(self).horizontal_scroll == 0,
            final(self).current_page == 0,
            final(self).tab_index == (if rows@.len() == 0 { MESSAGES_TAB } else { DATA_TAB }),
            final(self).color_index == old(self).color_index,
            final(self).history_selected == old(self).history_selected,
    {
        let (column_widths, min_column_widths) = DataTable::calculate_column_widths(&headers, &rows);
        let empty = rows.len() == 0;
        self.headers = headers;
        self.rows = rows;
        self.elapsed = elapsed;
        self.loading_state = LoadingState::Idle;
        let ms = decimal_text(elapsed);
        self.status_message = Some(join3("Query complete in ", ms.as_str(), " ms."));
        self.query_history = query_history;
        self.column_widths = column_widths;
        self.min_column_widths = min_column_widths;
        self.selected_row = if empty { None } else { Some(0) };
        self.selected_column = None;
        self.horizontal_scroll = 0;
        self.current_page = 0;
        self.tab_index = if empty { MESSAGES_TAB } else { DATA_TAB };
    }

    /// Shows a failure: the data stays, the message goes to the messages tab.
    pub fn set_error_state(&mut self, message: String)
        requires
            old(self).wf(),
        ensures
            final(self).wf(),
            final(self).loading_state matches LoadingState::Error(e) && e@ == message@,
            final(self).status_message matches Some(m) && m@ == "Error: "@ + message@,
            final(self).tab_index == MESSAGES_TAB,
            *final(self) == (DataTable {
                loading_state: final(self).loading_state,
                status_message: final(self).status_message,
                tab_index: MESSAGES_TAB,
                ..*old(self)
            }),
    {
        self.status_message = Some(join2("Error: ", message.as_str()));
        self.loading_state = LoadingState::Error(message);
        self.tab_index = MESSAGES_TAB;
    }

    /// The cells of the current page as text, one entry per header.
    pub fn get_current_page_rows(&self) -> (r: Vec<Vec<String>>)
        requires
            self.wf(),
        ensures
            r@.len() == page_len(self.rows@.len(), self.current_page as nat),
            forall|i: int, c: int|
                0 <= i < r@.len() && 0 <= c < self.headers@.len() ==> (#[trigger] r@[i]@[c])@ == cell_text_of(
                    cell_at(self.rows@[self.current_page * PAGE_SIZE + i]@, c),
                ),
            forall|i: int| 0 <= i < r@.len() ==> (#[trigger] r@[i])@.len() == self.headers@.len(),
    {
        let len = self.current_page_len();
        let start = if self.rows.len() == 0 { 0 } else { self.current_page * PAGE_SIZE };
        let n = self.rows.len();
        proof {
            if len > 0 {
                assert(n > 0);
                assert(start + len <= n);
            }
        }
        let mut r: Vec<Vec<String>> = Vec::new();
        let mut i: usize = 0;
        while i < len
            invariant
                i <= len,
                len as nat == page_len(self.rows@.len(), self.current_page as nat),
                start == self.current_page * PAGE_SIZE || self.rows@.len() == 0,
                n == self.rows@.len(),
                len > 0 ==> start + len <= n && start == self.current_page * PAGE_SIZE,
                r@.len() == i,
                forall|k: int, c: int|
                    0 <= k < i && 0 <= c < self.headers@.len() ==> (#[trigger] r@[k]@[c])@ == cell_text_of(
                        cell_at(self.rows@[self.current_page * PAGE_SIZE + k]@, c),
                    ),
                forall|k: int| 0 <= k < i ==> (#[trigger] r@[k])@.len() == self.headers@.len(),
            decreases len - i,
        {
            let cells = &self.rows[start + i];
            let mut line: Vec<String> = Vec::new();
            let mut c: usize = 0;
            while c < self.headers.len()
                invariant
                    c <= self.headers@.len(),
                    line@.len() == c,
                    start + i < self.rows@.len(),
                    *cells == self.rows@[start + i],
                    start == self.current_page * PAGE_SIZE,
                    forall|j: int| 0 <= j < c ==> (#[trigger] line@[j])@ == cell_text_of(cell_at(cells@, j)),
                decreases self.headers@.len() - c,
            {
                line.push(cell_text(cells, c));
                c += 1;
            }
            r.push(line);
            i += 1;
        }
        r
    }

    /// Applies a table command. Copy commands hand back the text for the
    /// clipboard and report it in the status message.
    pub fn handle_command(&mut self, command: Command) -> (r: Option<String>)
        requires
            old(self).wf(),
        ensures
            final(self).wf(),
            table_command_effect(*old(self), *final(self), command, r),
    {
        match command {
            Command::DataTablePreviousTab => {
                self.tab_index = (self.tab_index + TAB_COUNT - 1) % TAB_COUNT;
                None
            },
            Command::DataTableNextTab => {
                self.tab_index = (self.tab_index + 1) % TAB_COUNT;
                None
            },
            Command::DataTableNextRow => {
                self.next_row();
                None
            },
            Command::DataTablePreviousRow => {
                self.previous_row();
                None
            },
            Command::DataTableNextHistoryRow => {
                self.next_history_row();
                None
            },
            Command::DataTablePreviousHistoryRow => {
                self.previous_history_row();
                None
            },
            Command::DataTableScrollRight => {
                self.scroll_right();
                None
            },
            Command::DataTableScrollLeft => {
                self.scroll_left();
                None
            },
            Command::DataTableNextColor => {
                self.next_color();
                None
            },
            Command::DataTablePreviousColor => {
                self.previous_color();
                None
            },
            Command::DataTableNextPage => {
                self.next_page();
                None
            },
            Command::DataTablePreviousPage => {
                self.previous_page();
                None
            },
            Command::DataTableJumpToFirstRow => {
                self.jump_to_absolute_row(0);
                None
            },
            Command::DataTableJumpToLastRow => {
                let n = self.rows.len();
                self.jump_to_absolute_row(if n == 0 { 0 } else { n - 1 });
                None
            },
            Command::DataTableNextColumn => {
                self.next_column();
                None
            },
            Command::DataTablePreviousColumn => {
                self.previous_column();
                None
            },
            Command::DataTableAdjustColumnWidthIncrease => {
                self.adjust_column_width(1);
                None
            },
            Command::DataTableAdjustColumnWidthDecrease => {
                self.adjust_column_width(-1);
                None
            },
            Command::DataTableCopySelectedCell => {
                let content = self.copy_selected_cell();
                self.report("Copied: ", content)
            },
            Command::DataTableCopySelectedRow => {
                let content = self.copy_selected_row();
                self.report("Copied row: ", content)
            },
            Command::DataTableCopyQueryToEditor => {
                let content = self.copy_selected_query_to_editor();
                self.report("Copied query: ", content)
            },
            Command::DataTableRunSelectedHistoryQuery => {
                let content = self.get_selected_history_query();
                self.report("Running query: ", content)
            },
            Command::DataTableSetTabIndex(i) => {
                if i < TAB_COUNT {
                    self.tab_index = i;
                }
                None
            },
            _ => None,
        }
    }

    fn report(&mut self, prefix: &str, content: Option<String>) -> (r: Option<String>)
        requires
            old(self).wf(),
        ensures
            final(self).wf(),
            copy_outcome(*old(self), *final(self), r, opt_text_of(content), prefix@),
    {
        match content {
            Some(text) => {
                self.status_message = Some(join2(prefix, text.as_str()));
                Some(text)
            },
            None => None,
        }
    }

    /// Finds the first cell, row by row, whose text contains `query`
    /// ignoring case; goes to its page, selects its row and scrolls to its
    /// column. Returns the row on the page and the column.
    pub fn search_in_table(&mut self, query: &str) -> (r: Option<(usize, usize)>)
        requires
            old(self).wf(),
        ensures
            final(self).wf(),
            r is None ==> *final(self) == *old(self) && no_match_before(
                *old(self),
                old(self).rows@.len() as int,
                0,
                query@,
            ),
            r matches Some((pr, c)) ==> {
                let i = final(self).current_page * PAGE_SIZE + pr;
                &&& 0 <= i < old(self).rows@.len()
                &&& c < old(self).headers@.len()
                &&& cell_matches(*old(self), i, c as int, query@)
                &&& no_match_before(*old(self), i, c as int, query@)
                &&& final(self).current_page == i / PAGE_SIZE as int
                &&& pr == i % PAGE_SIZE as int
                &&& *final(self) == (DataTable {
                    current_page: final(self).current_page,
                    selected_row: Some(pr),
                    horizontal_scroll: c,
                    ..*old(self)
                })
            },
    {
        let needle = lowercase(query);
        let n = self.rows.len();
        let h = self.headers.len();
        let mut i: usize = 0;
        while i < n
            invariant
                n == self.rows@.len(),
                h == self.headers@.len(),
                i <= n,
                needle@ == lower_of(query@),
                *self == *old(self),
                self.wf(),
                no_match_before(*self, i as int, 0, query@),
            decreases n - i,
        {
            let mut c: usize = 0;
            while c < h
                invariant
                    n == self.rows@.len(),
                    h == self.headers@.len(),
                    i < n,
                    c <= h,
                    needle@ == lower_of(query@),
                    *self == *old(self),
                    self.wf(),
                    no_match_before(*self, i as int, c as int, query@),
                decreases h - c,
            {
                let text = cell_text(&self.rows[i], c);
                let low = lowercase(text.as_str());
                if contains_text(low.as_str(), needle.as_str()) {
                    let page = i / PAGE_SIZE;
                    let row = i % PAGE_SIZE;
                    proof {
                        assert(page * PAGE_SIZE + row == i && row < PAGE_SIZE) by (nonlinear_arith)
                            requires page == i / 100, row == i % 100, PAGE_SIZE == 100;
                    }
                    self.current_page = page;
                    self.selected_row = Some(row);
                    self.horizontal_scroll = c;
                    return Some((row, c));
                }
                c += 1;
            }
            proof {
                assert forall|i2: int, c2: int|
                    0 <= i2 <= i + 1 && 0 <= c2 < h && (i2 < i + 1 || c2 < 0) implies !#[trigger] cell_matches(
                    *self,
                    i2,
                    c2,
                    query@,
                ) by {
                    if i2 == i {
                        assert(c2 < h);
                    }
                }
            }
            i += 1;
        }
        None
    }

    /// The number of rows on the current page.
    pub fn current_page_len(&self) -> (r: usize)
        ensures
            r as nat == page_len(self.rows@.len(), self.current_page as nat),
    {
        let n = self.rows.len();
        if self.current_page > n / PAGE_SIZE {
            proof {
                assert(self.current_page * PAGE_SIZE >= n) by (nonlinear_arith)
                    requires self.current_page > n / PAGE_SIZE;
            }
            return 0;
        }
        let start = self.current_page * PAGE_SIZE;
        if n <= start {
            0
        } else if n - start < PAGE_SIZE {
            n - start
        } else {
            PAGE_SIZE
        }
    }
}

/// Jumping to a row twice leaves the same page and selection as jumping
/// once; the page is the clamped row divided by the page size, the selected
/// row its remainder, and for a row that exists the row itself is used.
pub proof fn lemma_jump_to_row_idempotent(t: DataTable, r: usize)
    requires
        t.wf(),
    ensures
        after_jump_to_row(after_jump_to_row(t, r), r) == after_jump_to_row(t, r),
        t.rows@.len() > 0 ==> after_jump_to_row(t, r).current_page == clamp_row(r as nat, t.rows@.len()) / PAGE_SIZE as nat,
        t.rows@.len() > 0 ==> after_jump_to_row(t, r).selected_row == Some(
            (clamp_row(r as nat, t.rows@.len()) % PAGE_SIZE as nat) as usize,
        ),
        r < t.rows@.len() ==> after_jump_to_row(t, r).current_page == r as nat / PAGE_SIZE as nat,
        r < t.rows@.len() ==> after_jump_to_row(t, r).selected_row == Some((r as nat % PAGE_SIZE as nat) as usize),
{
}

/// A freshly computed column is at least three wide, and at least as wide as
/// its header wherever the header's width fits in a `u16`.
pub proof fn lemma_fresh_width_floor(headers: Seq<String>, rows: Seq<Vec<CellValue>>, c: int)
    requires
        0 <= c < headers.len(),
    ensures
        fresh_column_width(headers, rows, c) >= MIN_COLUMN_WIDTH,
        display_width(headers[c]@) <= u16::MAX ==> fresh_column_width(headers, rows, c) >= display_width(headers[c]@),
{
    let k = if rows.len() < WIDTH_SAMPLE_ROWS { rows.len() } else { WIDTH_SAMPLE_ROWS as nat };
    lemma_widest_covers_header(headers, rows, c, k);
}

/// The widest width is never below the header's.
pub proof fn lemma_widest_covers_header(headers: Seq<String>, rows: Seq<Vec<CellValue>>, c: int, k: nat)
    ensures
        widest(headers, rows, c, k) >= display_width(headers[c]@),
    decreases k,
{
    if k > 0 {
        lemma_widest_covers_header(headers, rows, c, (k - 1) as nat);
    }
}

/// After a fresh load, every column is at least three wide and at least as
/// wide as its header (where that width fits in a `u16`).
pub proof fn lemma_loaded_widths_floor(t: DataTable, c: int)
    requires
        fresh_widths(t.column_widths@, t.headers@, t.rows@),
        0 <= c < t.column_widths@.len(),
    ensures
        t.column_widths@[c] >= MIN_COLUMN_WIDTH,
        display_width(t.headers@[c]@) <= u16::MAX ==> t.column_widths@[c] >= display_width(t.headers@[c]@),
{
    lemma_fresh_width_floor(t.headers@, t.rows@, c);
}

} // verus!
