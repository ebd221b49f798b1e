use crate::bpf_program::{BpfProgram, Process, ProgramView};
use crate::keys::Intent;
use crate::percent::Percent;
use crate::ring::{
    graph_stats, held, history_clear, history_new, history_push_back, max_cpu_of, max_eps_of,
    max_runtime_of, pushed,
};
use crate::sampler::{observed_measure, record_views, sample_tick, samples, ProgramRecord};
use crate::sort::{all_wf, arranged, views};
use crate::text::str_eq;
use circular_buffer::CircularBuffer;
use std::collections::HashMap;
use vstd::prelude::*;
use vstd::string::StringExecFns;

verus! {

/// The three measures of one program over one period.
#[derive(Clone, Copy, Debug, PartialEq, Eq, Structural)]
pub struct PeriodMeasure {
    pub cpu_time_percent: Percent,
    pub events_per_sec: i64,
    pub average_runtime_ns: u64,
}

/// The measures that a program shows.
pub open spec fn measure_of(program: ProgramView) -> PeriodMeasure {
    PeriodMeasure {
        cpu_time_percent: program.cpu_time_percent(),
        events_per_sec: program.events_per_second() as i64,
        average_runtime_ns: program.period_average_runtime_ns() as u64,
    }
}

/// What the screen shows.
#[derive(Clone, Copy, Debug, PartialEq, Eq, Structural)]
pub enum Mode {
    Table,
    Graph,
    Filter,
    Sort,
}

/// The order of the table: none, or by one column, upwards or downwards.
#[derive(Clone, Copy, Debug, PartialEq, Eq, Structural)]
pub enum SortColumn {
    NoOrder,
    Ascending(usize),
    Descending(usize),
}

/// The number of columns of the table.
pub const COLUMNS: usize = 7;

/// Which row of the table is selected.
#[derive(Clone, Copy, Debug, PartialEq, Eq)]
pub struct TableState {
    pub selected: Option<usize>,
}

impl TableState {
    /// The selected row.
    pub fn selected(&self) -> (r: Option<usize>)
        ensures
            r == self.selected,
    {
        self.selected
    }

    /// Selects a row, or none.
    pub fn select(&mut self, index: Option<usize>)
        ensures
            final(self).selected == index,
    {
        self.selected = index;
    }
}

impl Default for TableState {
    fn default() -> (r: Self)
        ensures
            r.selected is None,
    {
        TableState { selected: None }
    }
}

/// Where the scrollbar stands, and how much there is to scroll through.
#[derive(Clone, Copy, Debug, PartialEq, Eq, Structural)]
pub struct ScrollbarState {
    pub content_length: usize,
    pub position: usize,
}

impl ScrollbarState {
    /// A scrollbar at the top of a content of the given length.
    pub fn new(content_length: usize) -> (r: Self)
        ensures
            r == (ScrollbarState { content_length, position: 0 }),
    {
        ScrollbarState { content_length, position: 0 }
    }

    /// The same scrollbar at another position.
    pub fn position(self, position: usize) -> (r: Self)
        ensures
            r == (ScrollbarState { content_length: self.content_length, position }),
    {
        ScrollbarState { content_length: self.content_length, position }
    }

    /// The same scrollbar for a content of another length.
    pub fn content_length(self, content_length: usize) -> (r: Self)
        ensures
            r == (ScrollbarState { content_length, position: self.position }),
    {
        ScrollbarState { content_length, position: self.position }
    }
}

/// The title of a column, without a mark of its order.
pub open spec fn column_title(column: int) -> Seq<char> {
    if column == 0 {
        "ID"@
    } else if column == 1 {
        "Type"@
    } else if column == 2 {
        "Name"@
    } else if column == 3 {
        "Period Avg Runtime (ns)"@
    } else if column == 4 {
        "Total Avg Runtime (ns)"@
    } else if column == 5 {
        "Events/sec"@
    } else {
        "Total CPU %"@
    }
}

/// The header of a column: its title, followed by an arrow where the
/// table is in the order of that column.
pub open spec fn header_text(column: int, order: SortColumn) -> Seq<char> {
    match order {
        SortColumn::Ascending(c) if c == column => column_title(column) + "↑"@,
        SortColumn::Descending(c) if c == column => column_title(column) + "↓"@,
        _ => column_title(column),
    }
}

/// The selected column, or the first where none is selected.
pub open spec fn selected_or_first(selected: Option<usize>) -> usize {
    match selected {
        Some(c) => c,
        None => 0,
    }
}

/// The column that an order goes by.
pub open spec fn order_column(order: SortColumn) -> Option<usize> {
    match order {
        SortColumn::NoOrder => None,
        SortColumn::Ascending(c) => Some(c),
        SortColumn::Descending(c) => Some(c),
    }
}

/// The row selected after a step down a table of `len` rows: the first row
/// where none was selected, the next one otherwise, and never one past the
/// last.
pub open spec fn next_selection(selected: Option<usize>, len: usize) -> Option<usize> {
    if len == 0 {
        selected
    } else {
        match selected {
            Some(i) => if i >= len - 1 {
                Some((len - 1) as usize)
            } else {
                Some((i + 1) as usize)
            },
            None => Some(0),
        }
    }
}

/// The row selected after a step up: the one before, never one before the
/// first, and the last where the selection stood beyond the table. Where
/// no row was selected, none is.
pub open spec fn previous_selection(selected: Option<usize>, len: usize) -> Option<usize> {
    if len == 0 {
        selected
    } else {
        match selected {
            Some(i) => if i == 0 {
                Some(0)
            } else if i >= len {
                Some((len - 1) as usize)
            } else {
                Some((i - 1) as usize)
            },
            None => None,
        }
    }
}

/// A step up or down leaves the selection within the table, wherever it
/// stood before, and does nothing to an empty table. A step up from the
/// first row stays there, and selects no row where none was selected.
pub proof fn lemma_selection_stays_inside(selected: Option<usize>, len: usize)
    ensures
        len == 0 ==> next_selection(selected, len) == selected && previous_selection(selected, len)
            == selected,
        len > 0 ==> next_selection(selected, len) is Some && next_selection(selected, len)->0 < len,
        len > 0 ==> (previous_selection(selected, len) is None || previous_selection(
            selected,
            len,
        )->0 < len),
        len > 0 && selected == Some(0usize) ==> previous_selection(selected, len) == Some(0usize),
        len > 0 ==> (previous_selection(selected, len) is None <==> selected is None),
{
}

/// The state of the view: what is shown, what is selected, and what the
/// sampler is asked to deliver.
pub struct App {
    pub mode: Mode,
    pub table_state: TableState,
    pub vertical_scroll: usize,
    pub vertical_scroll_state: ScrollbarState,
    pub header_columns: [String; 7],
    pub items: Vec<BpfProgram>,
    pub data_buf: CircularBuffer<20, PeriodMeasure>,
    pub max_cpu: Percent,
    pub max_eps: i64,
    pub max_runtime: u64,
    pub filter_input: String,
    pub selected_column: Option<usize>,
    pub graphs_bpf_program: Option<BpfProgram>,
    pub sorted_column: SortColumn,
}

/// The title of a column.
fn title_of(column: usize) -> (r: &'static str)
    requires
        column < COLUMNS,
    ensures
        r@ == column_title(column as int),
{
    if column == 0 {
        "ID"
    } else if column == 1 {
        "Type"
    } else if column == 2 {
        "Name"
    } else if column == 3 {
        "Period Avg Runtime (ns)"
    } else if column == 4 {
        "Total Avg Runtime (ns)"
    } else if column == 5 {
        "Events/sec"
    } else {
        "Total CPU %"
    }
}

/// The header of a column under an order.
fn header_of(column: usize, order: SortColumn) -> (r: String)
    requires
        column < COLUMNS,
    ensures
        r@ == header_text(column as int, order),
{
    let mut header = title_of(column).to_owned();
    match order {
        SortColumn::Ascending(c) => {
            if c == column {
                header.append("↑");
            }
        },
        SortColumn::Descending(c) => {
            if c == column {
                header.append("↓");
            }
        },
        SortColumn::NoOrder => {},
    }
    header
}

impl App {
    /// The headers show the order of the table, and the columns referred to
    /// exist.
    pub open spec fn wf(&self) -> bool {
        &&& self.selected_column is Some ==> self.selected_column->0 < COLUMNS
        &&& order_column(self.sorted_column) is Some ==> order_column(self.sorted_column)->0
            < COLUMNS
        &&& forall|i: int|
            0 <= i < COLUMNS ==> (#[trigger] self.header_columns[i])@ == header_text(
                i,
                self.sorted_column,
            )
    }

    /// The id of the program under observation.
    pub open spec fn observed(&self) -> Option<u32> {
        match self.graphs_bpf_program {
            Some(program) => Some(program.id),
            None => None,
        }
    }

    /// The program in the selected row, where a row is selected and the
    /// table has it.
    pub open spec fn selection(&self) -> Option<BpfProgram> {
        match self.table_state.selected {
            Some(i) => if i < self.items@.len() {
                Some(self.items@[i as int])
            } else {
                None
            },
            None => None,
        }
    }

    /// What a step down the table does: the selection moves to the next
    /// row, the scroll position follows it, and the scrollbar shows the
    /// scroll position. An empty table is left as it is.
    pub open spec fn stepped_down(self, after: App) -> bool {
        let len = self.items.len();
        let moved = len > 0 && self.table_state.selected is Some && self.table_state.selected->0
            < len - 1;
        &&& after.table_state.selected == next_selection(self.table_state.selected, len)
        &&& after.vertical_scroll == if moved && self.vertical_scroll < usize::MAX {
            (self.vertical_scroll + 1) as usize
        } else {
            self.vertical_scroll
        }
        &&& after.vertical_scroll_state == if len > 0 {
            ScrollbarState {
                content_length: self.vertical_scroll_state.content_length,
                position: after.vertical_scroll,
            }
        } else {
            self.vertical_scroll_state
        }
        &&& after == (App {
            table_state: after.table_state,
            vertical_scroll: after.vertical_scroll,
            vertical_scroll_state: after.vertical_scroll_state,
            ..self
        })
    }

    /// What a step up the table does: the selection moves to the row
    /// before, the scroll position follows it where the selection moved
    /// within the table, and the scrollbar shows the scroll position. An
    /// empty table, and one with no row selected, is left as it is.
    pub open spec fn stepped_up(self, after: App) -> bool {
        let len = self.items.len();
        let active = len > 0 && self.table_state.selected is Some;
        let moved = active && 0 < self.table_state.selected->0 < len;
        &&& after.table_state.selected == previous_selection(self.table_state.selected, len)
        &&& after.vertical_scroll == if moved && self.vertical_scroll > 0 {
            (self.vertical_scroll - 1) as usize
        } else {
            self.vertical_scroll
        }
        &&& after.vertical_scroll_state == if active {
            ScrollbarState {
                content_length: self.vertical_scroll_state.content_length,
                position: after.vertical_scroll,
            }
        } else {
            self.vertical_scroll_state
        }
        &&& after == (App {
            table_state: after.table_state,
            vertical_scroll: after.vertical_scroll,
            vertical_scroll_state: after.vertical_scroll_state,
            ..self
        })
    }

    /// What showing the graphs does: the history is emptied, the maxima go
    /// back to zero, and the selected program, if there is one, is observed
    /// from now on.
    pub open spec fn graphs_shown(self, after: App) -> bool {
        &&& held(after.data_buf) == Seq::<PeriodMeasure>::empty()
        &&& match self.selection() {
            Some(program) => after.graphs_bpf_program is Some && after.graphs_bpf_program->0@
                == program@,
            None => after.graphs_bpf_program is None,
        }
        &&& after == (App {
            mode: Mode::Graph,
            data_buf: after.data_buf,
            max_cpu: Percent { part: 0, whole: 1 },
            max_eps: 0,
            max_runtime: 0,
            graphs_bpf_program: after.graphs_bpf_program,
            ..self
        })
    }

    /// What showing the table does: the history is emptied, the maxima go
    /// back to zero, and no program is observed any longer.
    pub open spec fn table_shown(self, after: App) -> bool {
        &&& held(after.data_buf) == Seq::<PeriodMeasure>::empty()
        &&& after == (App {
            mode: Mode::Table,
            data_buf: after.data_buf,
            max_cpu: Percent { part: 0, whole: 1 },
            max_eps: 0,
            max_runtime: 0,
            graphs_bpf_program: None,
            ..self
        })
    }

    /// What toggling the filter does: from the table into the filter's
    /// input, from any other mode to the table.
    pub open spec fn filter_toggled(self, after: App) -> bool {
        after == (App {
            mode: if self.mode == Mode::Table {
                Mode::Filter
            } else {
                Mode::Table
            },
            ..self
        })
    }

    /// What toggling the choice of the order does: from the table into the
    /// choice, with the column of the present order selected (the first
    /// where there is none); from any other mode to the table, with no
    /// column selected.
    pub open spec fn sort_toggled(self, after: App) -> bool {
        after == (App {
            mode: if self.mode == Mode::Table {
                Mode::Sort
            } else {
                Mode::Table
            },
            selected_column: if self.mode == Mode::Table {
                match order_column(self.sorted_column) {
                    Some(c) => Some(c),
                    None => Some(0usize),
                }
            } else {
                None
            },
            ..self
        })
    }

    /// What a step to the right does: the next column is selected, the
    /// first after the last, and the first where none was.
    pub open spec fn column_advanced(self, after: App) -> bool {
        after == (App {
            selected_column: match self.selected_column {
                Some(c) => Some(((c + 1) % (COLUMNS as int)) as usize),
                None => Some(0usize),
            },
            ..self
        })
    }

    /// What a step to the left does: the column before is selected, the
    /// last before the first, and the first where none was.
    pub open spec fn column_retreated(self, after: App) -> bool {
        after == (App {
            selected_column: match self.selected_column {
                Some(c) => Some(((c + COLUMNS - 1) % (COLUMNS as int)) as usize),
                None => Some(0usize),
            },
            ..self
        })
    }

    /// What setting the order does: the order is the one given, and the
    /// headers, which stay well-formed, are all else that changes.
    pub open spec fn sorted_by(self, order: SortColumn, after: App) -> bool {
        &&& after.wf()
        &&& after == (App { header_columns: after.header_columns, sorted_column: order, ..self })
    }

    /// The order that follows on the present one when the selected column
    /// is confirmed: upwards where the table is sorted downwards by that
    /// column, downwards by that column otherwise.
    pub open spec fn next_order(self) -> SortColumn {
        let column = selected_or_first(self.selected_column);
        if self.sorted_column == SortColumn::Descending(column) {
            SortColumn::Ascending(column)
        } else {
            SortColumn::Descending(column)
        }
    }

    /// What confirming the selected column does: the order becomes the one
    /// that follows on the present one, and the choice of the order is
    /// toggled.
    pub open spec fn sort_cycled(self, after: App) -> bool {
        exists|between: App|
            self.sorted_by(self.next_order(), between) && #[trigger] between.sort_toggled(after)
    }

    /// What performing an intent does.
    pub open spec fn applied(self, intent: Intent, after: App) -> bool {
        match intent {
            Intent::NextProgram => self.stepped_down(after),
            Intent::PreviousProgram => self.stepped_up(after),
            Intent::ShowGraphs => self.graphs_shown(after),
            Intent::ShowTable => self.table_shown(after),
            Intent::ToggleFilter => self.filter_toggled(after),
            Intent::ToggleSort => self.sort_toggled(after),
            Intent::SortAscending => self.sorted_by(
                SortColumn::Ascending(selected_or_first(self.selected_column)),
                after,
            ),
            Intent::SortDescending => self.sorted_by(
                SortColumn::Descending(selected_or_first(self.selected_column)),
                after,
            ),
            Intent::SortClear => self.sorted_by(SortColumn::NoOrder, after),
            Intent::PreviousColumn => self.column_retreated(after),
            Intent::NextColumn => self.column_advanced(after),
            Intent::CycleSortExit => self.sort_cycled(after),
            Intent::EditFilter => after == self,
            Intent::Quit => after == self,
            Intent::Nothing => after == self,
        }
    }

    /// Tells whether the view is well-formed.
    pub fn is_wf(&self) -> (r: bool)
        ensures
            r == self.wf(),
    {
        let columns_exist = (match self.selected_column {
            Some(c) => c < COLUMNS,
            None => true,
        }) && (match self.sorted_column {
            SortColumn::NoOrder => true,
            SortColumn::Ascending(c) => c < COLUMNS,
            SortColumn::Descending(c) => c < COLUMNS,
        });
        if !columns_exist {
            return false;
        }
        let mut i: usize = 0;
        while i < COLUMNS
            invariant
                i <= COLUMNS,
                forall|k: int|
                    0 <= k < i ==> (#[trigger] self.header_columns[k])@ == header_text(
                        k,
                        self.sorted_column,
                    ),
            decreases COLUMNS - i,
        {
            let expected = header_of(i, self.sorted_column);
            if !str_eq(self.header_columns[i].as_str(), expected.as_str()) {
                return false;
            }
            i += 1;
        }
        true
    }

    /// The view at startup: the table, nothing selected, no filter, no
    /// order, no history and no program under observation.
    pub fn new() -> (app: App)
        ensures
            app.wf(),
            app.mode == Mode::Table,
            app.table_state.selected is None,
            app.vertical_scroll == 0,
            app.vertical_scroll_state == (ScrollbarState { content_length: 0, position: 0 }),
            app.items@.len() == 0,
            held(app.data_buf) == Seq::<PeriodMeasure>::empty(),
            app.max_cpu == (Percent { part: 0, whole: 1 }),
            app.max_eps == 0,
            app.max_runtime == 0,
            app.filter_input@.len() == 0,
            app.selected_column is None,
            app.graphs_bpf_program is None,
            app.sorted_column == SortColumn::NoOrder,
    {
        App {
            mode: Mode::Table,
            vertical_scroll: 0,
            vertical_scroll_state: ScrollbarState::new(0),
            table_state: TableState::default(),
            header_columns: [
                header_of(0, SortColumn::NoOrder),
                header_of(1, SortColumn::NoOrder),
                header_of(2, SortColumn::NoOrder),
                header_of(3, SortColumn::NoOrder),
                header_of(4, SortColumn::NoOrder),
                header_of(5, SortColumn::NoOrder),
                header_of(6, SortColumn::NoOrder),
            ],
            items: Vec::new(),
            data_buf: history_new(),
            max_cpu: Percent::zero(),
            max_eps: 0,
            max_runtime: 0,
            filter_input: String::new(),
            selected_column: None,
            graphs_bpf_program: None,
            sorted_column: SortColumn::NoOrder,
        }
    }

    /// One tick of the sampler on this view: the programs are replaced by
    /// the samples of the records, and the observed program, if it is among
    /// them, adds its measures to the history.
    pub fn tick(
        &mut self,
        records: &Vec<ProgramRecord>,
        pid_map: &HashMap<u32, Vec<Process>>,
        now_ns: u128,
    )
        ensures
            views(final(self).items@) == arranged(
                old(self).sorted_column,
                samples(
                    views(old(self).items@),
                    record_views(records@),
                    pid_map@,
                    old(self).filter_input@,
                    now_ns,
                ),
            ),
            all_wf(views(final(self).items@)),
            held(final(self).data_buf) == match observed_measure(
                views(final(self).items@),
                old(self).observed(),
            ) {
                Some(measure) => pushed(held(old(self).data_buf), measure),
                None => held(old(self).data_buf),
            },
            *final(self) == (App {
                items: final(self).items,
                data_buf: final(self).data_buf,
                ..*old(self)
            }),
    {
        let observed = match &self.graphs_bpf_program {
            Some(program) => Some(program.id),
            None => None,
        };
        let tick = sample_tick(
            &self.items,
            records,
            pid_map,
            self.filter_input.as_str(),
            self.sorted_column,
            observed,
            now_ns,
        );
        self.items = tick.items;
        match tick.measure {
            Some(measure) => {
                history_push_back(&mut self.data_buf, measure);
            },
            None => {},
        }
    }

    /// Replaces the text of the filter.
    pub fn set_filter(&mut self, text: String)
        ensures
            *final(self) == (App { filter_input: text, ..*old(self) }),
    {
        self.filter_input = text;
    }

    /// Performs what a key asked for. Editing the text of the filter and
    /// ending the program are not the view's to do: they leave it as it
    /// is.
    pub fn apply(&mut self, intent: Intent)
        requires
            old(self).wf(),
        ensures
            final(self).wf(),
            old(self).applied(intent, *final(self)),
    {
        match intent {
            Intent::NextProgram => self.next_program(),
            Intent::PreviousProgram => self.previous_program(),
            Intent::ShowGraphs => self.show_graphs(),
            Intent::ShowTable => self.show_table(),
            Intent::ToggleFilter => self.toggle_filter(),
            Intent::ToggleSort => self.toggle_sort(),
            Intent::SortAscending => {
                let column = match self.selected_column {
                    Some(c) => c,
                    None => 0,
                };
                self.sort_column(SortColumn::Ascending(column));
            },
            Intent::SortDescending => {
                let column = match self.selected_column {
                    Some(c) => c,
                    None => 0,
                };
                self.sort_column(SortColumn::Descending(column));
            },
            Intent::SortClear => self.sort_column(SortColumn::NoOrder),
            Intent::PreviousColumn => self.previous_column(),
            Intent::NextColumn => self.next_column(),
            Intent::CycleSortExit => self.cycle_sort_exit(),
            Intent::EditFilter => {},
            Intent::Quit => {},
            Intent::Nothing => {},
        }
    }

    /// Forgets the history and the maxima of the graphs.
    fn reset_graphs(&mut self)
        ensures
            held(final(self).data_buf) == Seq::<PeriodMeasure>::empty(),
            *final(self) == (App {
                data_buf: final(self).data_buf,
                max_cpu: Percent { part: 0, whole: 1 },
                max_eps: 0,
                max_runtime: 0,
                ..*old(self)
            }),
    {
        history_clear(&mut self.data_buf);
        self.max_cpu = Percent::zero();
        self.max_eps = 0;
        self.max_runtime = 0;
    }

    /// Shows the graphs of the selected program, with an empty history.
    pub fn show_graphs(&mut self)
        ensures
            old(self).graphs_shown(*final(self)),
    {
        self.reset_graphs();
        self.mode = Mode::Graph;
        self.graphs_bpf_program = self.selected_program();
    }

    /// Shows the table again; no program is observed any longer.
    pub fn show_table(&mut self)
        ensures
            old(self).table_shown(*final(self)),
    {
        self.mode = Mode::Table;
        self.reset_graphs();
        self.graphs_bpf_program = None;
    }

    /// A copy of the program in the selected row.
    pub fn selected_program(&self) -> (r: Option<BpfProgram>)
        ensures
            match self.selection() {
                Some(program) => r is Some && r->0@ == program@,
                None => r is None,
            },
    {
        match self.table_state.selected() {
            Some(i) => {
                if i < self.items.len() {
                    Some(self.items[i].clone())
                } else {
                    None
                }
            },
            None => None,
        }
    }

    /// Moves the selection one row down, not beyond the last row.
    pub fn next_program(&mut self)
        ensures
            old(self).stepped_down(*final(self)),
    {
        let len = self.items.len();
        if len > 0 {
            let i = match self.table_state.selected() {
                Some(i) => {
                    if i >= len - 1 {
                        len - 1
                    } else {
                        self.vertical_scroll = self.vertical_scroll.saturating_add(1);
                        i + 1
                    }
                },
                None => 0,
            };
            self.table_state.select(Some(i));
            self.vertical_scroll_state = self.vertical_scroll_state.position(self.vertical_scroll);
        }
    }

    /// Moves the selection one row up, not beyond the first row, and back
    /// into the table where it stood beyond the last; does nothing where
    /// no row is selected.
    pub fn previous_program(&mut self)
        ensures
            old(self).stepped_up(*final(self)),
    {
        let len = self.items.len();
        if len > 0 {
            let i = match self.table_state.selected() {
                Some(i) => {
                    if i == 0 {
                        0
                    } else if i >= len {
                        len - 1
                    } else {
                        self.vertical_scroll = self.vertical_scroll.saturating_sub(1);
                        i - 1
                    }
                },
                None => {
                    return ;
                },
            };
            self.table_state.select(Some(i));
            self.vertical_scroll_state = self.vertical_scroll_state.position(self.vertical_scroll);
        }
    }

    /// Enters the filter's input from the table, and leaves any other mode
    /// for the table.
    pub fn toggle_filter(&mut self)
        ensures
            old(self).filter_toggled(*final(self)),
    {
        self.mode = match self.mode {
            Mode::Table => Mode::Filter,
            _ => Mode::Table,
        };
    }

    /// Enters the choice of the order from the table, and leaves any other
    /// mode for the table.
    pub fn toggle_sort(&mut self)
        ensures
            old(self).sort_toggled(*final(self)),
            old(self).wf() ==> final(self).wf(),
    {
        match self.mode {
            Mode::Table => {
                self.mode = Mode::Sort;
                self.selected_column = match self.sorted_column {
                    SortColumn::Descending(c) => Some(c),
                    SortColumn::Ascending(c) => Some(c),
                    SortColumn::NoOrder => Some(0),
                };
            },
            _ => {
                self.mode = Mode::Table;
                self.selected_column = None;
            },
        }
    }

    /// Selects the column to the right, and the first after the last.
    pub fn next_column(&mut self)
        requires
            old(self).wf(),
        ensures
            final(self).wf(),
            old(self).column_advanced(*final(self)),
    {
        self.selected_column = match self.selected_column {
            Some(c) => Some((c + 1) % COLUMNS),
            None => Some(0),
        };
    }

    /// Selects the column to the left, and the last before the first.
    pub fn previous_column(&mut self)
        requires
            old(self).wf(),
        ensures
            final(self).wf(),
            old(self).column_retreated(*final(self)),
    {
        self.selected_column = match self.selected_column {
            Some(c) => Some((c + COLUMNS - 1) % COLUMNS),
            None => Some(0),
        };
    }

    /// Sets the order of the table and marks it in the headers.
    pub fn sort_column(&mut self, sort_input: SortColumn)
        requires
            old(self).wf(),
            order_column(sort_input) is Some ==> order_column(sort_input)->0 < COLUMNS,
        ensures
            old(self).sorted_by(sort_input, *final(self)),
    {
        match self.sorted_column {
            SortColumn::Ascending(c) => {
                self.header_columns[c] = header_of(c, sort_input);
            },
            SortColumn::Descending(c) => {
                self.header_columns[c] = header_of(c, sort_input);
            },
            SortColumn::NoOrder => {},
        }
        match sort_input {
            SortColumn::Ascending(c) => {
                self.header_columns[c] = header_of(c, sort_input);
            },
            SortColumn::Descending(c) => {
                self.header_columns[c] = header_of(c, sort_input);
            },
            SortColumn::NoOrder => {},
        }
        self.sorted_column = sort_input;
    }

    /// Turns the order of the selected column round, or starts with the
    /// largest first, and goes back to the table.
    pub fn cycle_sort_exit(&mut self)
        requires
            old(self).wf(),
        ensures
            final(self).wf(),
            final(self).sorted_column == old(self).next_order(),
            old(self).sort_cycled(*final(self)),
    {
        let selected = match self.selected_column {
            Some(c) => c,
            None => 0,
        };
        let turn = match self.sorted_column {
            SortColumn::Descending(c) => c == selected,
            _ => false,
        };
        if turn {
            self.sort_column(SortColumn::Ascending(selected));
        } else {
            self.sort_column(SortColumn::Descending(selected));
        }
        self.toggle_sort();
    }

    /// Raises the maxima of the graphs to what the history holds.
    pub fn track_maxima(&mut self)
        ensures
            *final(self) == (App {
                max_cpu: max_cpu_of(old(self).max_cpu, held(old(self).data_buf)),
                max_eps: max_eps_of(old(self).max_eps, held(old(self).data_buf)),
                max_runtime: max_runtime_of(old(self).max_runtime, held(old(self).data_buf)),
                ..*old(self)
            }),
    {
        let stats = graph_stats(&self.data_buf, self.max_cpu, self.max_eps, self.max_runtime);
        self.max_cpu = stats.max_cpu;
        self.max_eps = stats.max_eps;
        self.max_runtime = stats.max_runtime;
    }

    /// Tells the scrollbar how many rows there are to scroll through: all
    /// of them where the table is higher than the room it has, and none
    /// where it fits. A table has three lines of its own and two for each
    /// row.
    pub fn fit_scrollbar(&mut self, area_height: u16)
        ensures
            *final(self) == (App {
                vertical_scroll_state: ScrollbarState {
                    content_length: if 3 + 2 * old(self).items.len() > area_height {
                        old(self).items.len()
                    } else {
                        0
                    },
                    position: old(self).vertical_scroll_state.position,
                },
                ..*old(self)
            }),
    {
        let rows = self.items.len();
        let room: usize = area_height as usize;
        let higher = if room < 3 {
            true
        } else {
            rows > (room - 3) / 2
        };
        let length = if higher {
            rows
        } else {
            0
        };
        self.vertical_scroll_state = self.vertical_scroll_state.content_length(length);
    }
}

} // verus!
