//! The application state and the decisions of the polling loop: which tab
//! is active, how far the row list is scrolled, when the state machine
//! stops, and how a finished fetch replaces the row snapshot. Every
//! transition is a no-op at its boundary: nothing wraps or underflows.

use vstd::prelude::*;

use crate::db::pool::{pool_clone, SQLiteConnectionPool};
use crate::db::schema_table::SQLiteSchema;
use crate::db::sql_table::{renders_some_cells, DataAccessError, SQLTable};

verus! {

/// A keyboard event, as the loop consumes it: quit, the four navigation
/// keys, some other character key (one character toggles the title), or
/// a key with no effect.
#[derive(Clone, Copy, PartialEq, Eq, Structural, Debug)]
pub enum KeyEvent {
    Quit,
    Up,
    Down,
    Left,
    Right,
    Char(char),
    Other,
}

/// The state the loop owns: the immutable tab set, the navigation state
/// (active tab and scroll offset), the current row snapshot, the running
/// flag, and the fetcher with its pool.
pub struct App {
    pub title: String,
    pub is_running: bool,
    pub pool: SQLiteConnectionPool,
    pub sql_table: SQLTable,
    pub tabs: Vec<String>,
    pub tab_idx: usize,
    pub scroll: usize,
    pub rows: Vec<String>,
}

impl App {
    /// The state invariant: the active tab index stays inside the tab
    /// set (and at zero when there are no tabs), and the scroll offset
    /// stays below the row count (and at zero when there are no rows).
    pub open spec fn wf(&self) -> bool {
        &&& self.tabs@.len() > 0 ==> self.tab_idx < self.tabs@.len()
        &&& self.tabs@.len() == 0 ==> self.tab_idx == 0
        &&& self.scroll == 0 || self.scroll < self.rows@.len()
    }
}

/// Stopping: the running flag goes false; nothing else moves.
pub open spec fn spec_on_quit(a: App) -> App {
    App { is_running: false, ..a }
}

/// Scrolling up: one step toward zero, a no-op at zero.
pub open spec fn spec_on_up(a: App) -> App {
    App { scroll: if a.scroll > 0 { (a.scroll - 1) as usize } else { a.scroll }, ..a }
}

/// Scrolling down: one step, never past the last row, a no-op on an
/// empty snapshot.
pub open spec fn spec_on_down(a: App) -> App {
    App {
        scroll: if a.scroll + 1 < a.rows@.len() {
            (a.scroll + 1) as usize
        } else {
            a.scroll
        },
        ..a
    }
}

/// The previous tab: one step toward zero with the scroll offset reset,
/// a no-op at the first tab.
pub open spec fn spec_on_left(a: App) -> App {
    if a.tab_idx > 0 {
        App { tab_idx: (a.tab_idx - 1) as usize, scroll: 0, ..a }
    } else {
        a
    }
}

/// The next tab: one step up with the scroll offset reset, a no-op at
/// the last tab (and with no tabs at all).
pub open spec fn spec_on_right(a: App) -> App {
    if a.tab_idx + 1 < a.tabs@.len() {
        App { tab_idx: (a.tab_idx + 1) as usize, scroll: 0, ..a }
    } else {
        a
    }
}

/// How a finished fetch lands: a successful fetch replaces the whole row
/// snapshot (the scroll offset is kept if still inside the new snapshot
/// and reset to zero otherwise), and a failed fetch leaves everything as
/// it was — the prior snapshot is retained.
pub open spec fn spec_apply_fetch(a: App, fetched: Result<Vec<String>, DataAccessError>) -> App {
    match fetched {
        Ok(rows) => App {
            scroll: if a.scroll < rows@.len() {
                a.scroll
            } else {
                0
            },
            rows,
            ..a
        },
        Err(_) => a,
    }
}

impl App {
    /// Builds the startup state: one tab per given table entry, in the
    /// given order, the first tab active, not scrolled, an empty row
    /// snapshot, and the loop running.
    pub fn new(title: String, pool: SQLiteConnectionPool, tables: Vec<SQLiteSchema>) -> (app: App)
        ensures
            app.title == title,
            app.pool == pool,
            app.is_running,
            app.tabs@.len() == tables@.len(),
            forall|i: int|
                0 <= i < tables@.len() ==> (#[trigger] app.tabs@[i])@ == tables@[i].tbl_name@,
            app.tab_idx == 0,
            app.scroll == 0,
            app.rows@.len() == 0,
            app.wf(),
    {
        let sql_table = SQLTable::new(pool_clone(&pool));
        let mut tabs: Vec<String> = Vec::new();
        let mut i: usize = 0;
        while i < tables.len()
            invariant
                0 <= i <= tables@.len(),
                tabs@.len() == i,
                forall|j: int| 0 <= j < i ==> (#[trigger] tabs@[j])@ == tables@[j].tbl_name@,
            decreases tables@.len() - i,
        {
            tabs.push(tables[i].tbl_name.clone());
            i = i + 1;
        }
        App {
            title,
            is_running: true,
            pool,
            sql_table,
            tabs,
            tab_idx: 0,
            scroll: 0,
            rows: Vec::new(),
        }
    }

    /// Stops the loop.
    pub fn on_quit(&mut self)
        ensures
            *final(self) == spec_on_quit(*old(self)),
    {
        self.is_running = false;
    }

    /// A character key: one reserved character swaps in the alternate
    /// title, any other restores the standard one; nothing else moves.
    pub fn on_key(&mut self, c: char)
        ensures
            c == 'a' ==> final(self).title@ == "ABC"@,
            c != 'a' ==> final(self).title@ == "Test TUI"@,
            final(self).is_running == old(self).is_running,
            final(self).pool == old(self).pool,
            final(self).sql_table == old(self).sql_table,
            final(self).tabs == old(self).tabs,
            final(self).tab_idx == old(self).tab_idx,
            final(self).scroll == old(self).scroll,
            final(self).rows == old(self).rows,
    {
        if c == 'a' {
            self.title = "ABC".to_string();
        } else {
            self.title = "Test TUI".to_string();
        }
    }

    /// Scrolls up one row; a no-op at the top.
    pub fn on_up(&mut self)
        ensures
            *final(self) == spec_on_up(*old(self)),
    {
        if self.scroll > 0 {
            self.scroll = self.scroll - 1;
        }
    }

    /// Scrolls down one row; never past the last row, and a no-op on an
    /// empty snapshot.
    pub fn on_down(&mut self)
        ensures
            *final(self) == spec_on_down(*old(self)),
    {
        if self.rows.len() > 0 && self.scroll < self.rows.len() - 1 {
            self.scroll = self.scroll + 1;
        }
    }

    /// Moves to the previous tab and resets the scroll offset; a no-op
    /// at the first tab.
    pub fn on_left(&mut self)
        ensures
            *final(self) == spec_on_left(*old(self)),
            old(self).tab_idx == 0 ==> *final(self) == *old(self),
            old(self).tab_idx > 0 ==> final(self).scroll == 0,
    {
        if self.tab_idx > 0 {
            self.tab_idx = self.tab_idx - 1;
            self.scroll = 0;
        }
    }

    /// Moves to the next tab and resets the scroll offset; a no-op at
    /// the last tab.
    pub fn on_right(&mut self)
        ensures
            *final(self) == spec_on_right(*old(self)),
            old(self).tabs@.len() > 0 && old(self).tab_idx == old(self).tabs@.len() - 1
                ==> *final(self) == *old(self),
            old(self).tab_idx + 1 < old(self).tabs@.len() ==> final(self).scroll == 0,
    {
        if self.tabs.len() > 0 && self.tab_idx < self.tabs.len() - 1 {
            self.tab_idx = self.tab_idx + 1;
            self.scroll = 0;
        }
    }

    /// Lands a finished fetch on the state, exactly as
    /// [`spec_apply_fetch`] says: replace the snapshot on success, retain
    /// it on failure.
    pub fn apply_fetch(&mut self, fetched: Result<Vec<String>, DataAccessError>)
        ensures
            *final(self) == spec_apply_fetch(*old(self), fetched),
    {
        match fetched {
            Ok(rows) => {
                if self.scroll >= rows.len() {
                    self.scroll = 0;
                }
                self.rows = rows;
            },
            Err(_) => {},
        }
    }

    /// Refreshes the row snapshot for the active tab. Whatever the fetch
    /// returned, the state afterwards is that outcome landed by
    /// [`spec_apply_fetch`]; with no tab to fetch, nothing moves.
    pub fn on_tick(&mut self)
        ensures
            tick_outcome(*old(self), *final(self)),
            old(self).tab_idx >= old(self).tabs@.len() ==> *final(self) == *old(self),
            old(self).wf() ==> final(self).wf(),
    {
        if self.tab_idx < self.tabs.len() {
            let name = self.tabs[self.tab_idx].clone();
            let fetched = self.sql_table.get_rows(&name);
            self.apply_fetch(fetched);
        } else {
            proof {
                let f: Result<Vec<String>, DataAccessError> = Err(DataAccessError::Query);
                assert(*self == spec_apply_fetch(*self, f));
            }
        }
    }

    /// Dispatches one keyboard event to its transition.
    pub fn on_event(&mut self, ev: KeyEvent)
        ensures
            match ev {
                KeyEvent::Quit => *final(self) == spec_on_quit(*old(self)),
                KeyEvent::Up => *final(self) == spec_on_up(*old(self)),
                KeyEvent::Down => *final(self) == spec_on_down(*old(self)),
                KeyEvent::Left => *final(self) == spec_on_left(*old(self)),
                KeyEvent::Right => *final(self) == spec_on_right(*old(self)),
                KeyEvent::Char(c) => {
                    &&& final(self).title@ == (if c == 'a' {
                        "ABC"@
                    } else {
                        "Test TUI"@
                    })
                    &&& final(self).is_running == old(self).is_running
                    &&& final(self).tabs == old(self).tabs
                    &&& final(self).tab_idx == old(self).tab_idx
                    &&& final(self).scroll == old(self).scroll
                    &&& final(self).rows == old(self).rows
                },
                KeyEvent::Other => *final(self) == *old(self),
            },
    {
        match ev {
            KeyEvent::Quit => self.on_quit(),
            KeyEvent::Up => self.on_up(),
            KeyEvent::Down => self.on_down(),
            KeyEvent::Left => self.on_left(),
            KeyEvent::Right => self.on_right(),
            KeyEvent::Char(c) => self.on_key(c),
            KeyEvent::Other => {},
        }
    }

    /// One loop iteration after the renderer has painted: dispatch the
    /// key event that arrived within the remaining tick time, if any;
    /// refresh the snapshot if the tick interval has fully elapsed (a key
    /// event neither resets nor skips the tick); and report whether the
    /// loop goes on. A quit event stops the loop within this iteration,
    /// whatever the remaining tick time.
    pub fn loop_step(&mut self, key: Option<KeyEvent>, tick_elapsed: bool) -> (cont: bool)
        ensures
            cont == final(self).is_running,
            key == Some(KeyEvent::Quit) ==> !cont,
            key is None && !tick_elapsed ==> *final(self) == *old(self),
    {
        match key {
            Some(ev) => self.on_event(ev),
            None => {},
        }
        if tick_elapsed {
            self.on_tick();
        }
        self.is_running
    }
}

/// How one tick relates the state before to the state after: some fetch
/// outcome, landed by [`spec_apply_fetch`]; a successful outcome is the
/// row-by-row rendering of some matrix of cells.
pub open spec fn tick_outcome(a: App, b: App) -> bool {
    exists|f: Result<Vec<String>, DataAccessError>|
        {
            &&& b == spec_apply_fetch(a, f)
            &&& (f matches Ok(rows) ==> renders_some_cells(rows@))
        }
}

/// The time left until the tick interval elapses, clamped at zero.
pub fn remaining_timeout_ms(tick_rate_ms: u64, elapsed_ms: u64) -> (r: u64)
    ensures
        elapsed_ms >= tick_rate_ms ==> r == 0,
        elapsed_ms < tick_rate_ms ==> r == tick_rate_ms - elapsed_ms,
{
    if elapsed_ms >= tick_rate_ms {
        0
    } else {
        tick_rate_ms - elapsed_ms
    }
}

/// Whether the tick interval has fully elapsed.
pub fn tick_due(tick_rate_ms: u64, elapsed_ms: u64) -> (r: bool)
    ensures
        r == (elapsed_ms >= tick_rate_ms),
{
    elapsed_ms >= tick_rate_ms
}

/// At the first tab, moving to the previous tab changes nothing at all.
pub proof fn lemma_prev_tab_at_first_tab(a: App)
    requires
        a.tab_idx == 0,
    ensures
        spec_on_left(a) == a,
{
}

/// At the last tab, moving to the next tab changes nothing at all.
pub proof fn lemma_next_tab_at_last_tab(a: App)
    requires
        a.tabs@.len() > 0,
        a.tab_idx == a.tabs@.len() - 1,
    ensures
        spec_on_right(a) == a,
{
}

/// Whenever the previous-tab transition moves, it resets the scroll
/// offset to zero, whatever the offset was before.
pub proof fn lemma_prev_tab_resets_scroll(a: App)
    requires
        a.tab_idx > 0,
    ensures
        spec_on_left(a).scroll == 0,
{
}

/// Whenever the next-tab transition moves, it resets the scroll offset
/// to zero, whatever the offset was before.
pub proof fn lemma_next_tab_resets_scroll(a: App)
    requires
        a.tab_idx + 1 < a.tabs@.len(),
    ensures
        spec_on_right(a).scroll == 0,
{
}

/// Scrolling down on an empty row snapshot changes nothing at all.
pub proof fn lemma_scroll_down_empty_no_op(a: App)
    requires
        a.rows@.len() == 0,
    ensures
        spec_on_down(a) == a,
{
}

/// On a snapshot of length N, the scroll offset never exceeds N - 1,
/// however often the scroll transitions run.
pub proof fn lemma_scroll_stays_below_rows(a: App)
    requires
        a.wf(),
    ensures
        spec_on_down(a).wf(),
        spec_on_up(a).wf(),
        a.rows@.len() > 0 ==> spec_on_down(a).scroll <= a.rows@.len() - 1,
        a.rows@.len() > 0 ==> spec_on_up(a).scroll <= a.rows@.len() - 1,
{
}

/// A failed fetch retains the prior row snapshot and moves nothing else,
/// and the loop keeps its running flag.
pub proof fn lemma_failed_fetch_retains_snapshot(a: App, e: DataAccessError)
    ensures
        spec_apply_fetch(a, Err(e)) == a,
        spec_apply_fetch(a, Err(e)).is_running == a.is_running,
{
}

/// Every navigation transition preserves the state invariant.
pub proof fn lemma_transitions_preserve_wf(a: App, fetched: Result<Vec<String>, DataAccessError>)
    requires
        a.wf(),
    ensures
        spec_on_quit(a).wf(),
        spec_on_up(a).wf(),
        spec_on_down(a).wf(),
        spec_on_left(a).wf(),
        spec_on_right(a).wf(),
        spec_apply_fetch(a, fetched).wf(),
{
}

} // verus!
