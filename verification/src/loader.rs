//! Loading the schema table.
//!
//! Reading the schema table alternates with work on the database: stepping the
//! statement that reads it, running I/O, adding tables and indexes. What to do
//! next is decided here, from what the last action came to.

use vstd::prelude::*;
use vstd::string::*;

use crate::error::LimboError;
use crate::text;

verus! {

/// How the names of automatic indexes on primary keys begin.
pub const PRIMARY_KEY_AUTOMATIC_INDEX_NAME_PREFIX: &'static str = "sqlite_autoindex_";

/// A row of the schema table, each column as far as it could be read.
#[derive(Debug)]
pub struct SchemaRow {
    /// Column 0.
    pub ty: Result<String, LimboError>,
    /// Column 1.
    pub name: Result<String, LimboError>,
    /// Column 2.
    pub table_name: Result<String, LimboError>,
    /// Column 3.
    pub root_page: Result<i64, LimboError>,
    /// Column 4.
    pub sql: Result<String, LimboError>,
}

/// What an action came to.
#[derive(Debug)]
pub enum SchemaEvent {
    /// The statement stepped to a row.
    Row(SchemaRow),
    /// The statement waits for I/O.
    IO,
    /// The statement was interrupted.
    Interrupt,
    /// The statement is done.
    Done,
    /// The database is busy.
    Busy,
    /// I/O was run, or a table or an index was added.
    Applied,
    /// The action failed.
    Failed(LimboError),
}

/// What to do next.
#[derive(Debug)]
pub enum SchemaAction {
    /// Step the statement.
    Step,
    /// Run I/O once.
    RunIo,
    /// Add the table that the SQL text creates.
    AddTable { sql: String, root_page: usize },
    /// Add the index that the SQL text creates.
    AddIndex { sql: String, root_page: usize },
    /// Add the index that the primary key of a table brings with it.
    AddAutomaticIndex { index_name: String, table_name: String, root_page: usize },
    /// Nothing: this is the result.
    Finish(Result<(), LimboError>),
}

/// An index on a primary key, which has no SQL text of its own.
#[derive(Debug)]
pub struct AutomaticIndex {
    pub index_name: String,
    pub table_name: String,
    pub root_page: i64,
}

/// What the loader waits for.
#[derive(Copy, Clone, Debug, PartialEq, Eq, Structural)]
pub enum Phase {
    /// What stepping the statement comes to.
    Stepping,
    /// What running I/O, or adding a table or an index, comes to.
    Applying,
    /// What adding an automatic index comes to, when all rows have been read.
    Draining,
    /// Nothing more.
    Finished,
}

/// The state of loading the schema table.
#[derive(Debug)]
pub struct SchemaLoader {
    phase: Phase,
    automatic_indexes: Vec<AutomaticIndex>,
}

/// The state of loading the schema table, as contracts speak of it.
pub struct LoaderState {
    pub phase: Phase,
    /// The automatic indexes that are still to be added, in order.
    pub automatic_indexes: Seq<AutomaticIndex>,
}

impl View for SchemaLoader {
    type V = LoaderState;

    closed spec fn view(&self) -> LoaderState {
        LoaderState { phase: self.phase, automatic_indexes: self.automatic_indexes@ }
    }
}

impl LoaderState {
    /// What can come next: an outcome of the last action.
    pub open spec fn expects(self, event: SchemaEvent) -> bool {
        match self.phase {
            Phase::Stepping => event !is Applied,
            Phase::Applying | Phase::Draining => event is Applied || event is Failed,
            Phase::Finished => false,
        }
    }

    /// The state with nothing left to wait for.
    pub open spec fn finished(self) -> LoaderState {
        LoaderState { phase: Phase::Finished, automatic_indexes: self.automatic_indexes }
    }

    /// The state and the action when all rows have been read: the first of the
    /// automatic indexes that are left, if any are.
    pub open spec fn drain(self) -> (LoaderState, SchemaAction) {
        if self.automatic_indexes.len() == 0 {
            (self.finished(), SchemaAction::Finish(Ok(())))
        } else {
            let first = self.automatic_indexes[0];
            (
                LoaderState {
                    phase: Phase::Draining,
                    automatic_indexes: self.automatic_indexes.drop_first(),
                },
                SchemaAction::AddAutomaticIndex {
                    index_name: first.index_name,
                    table_name: first.table_name,
                    root_page: first.root_page as usize,
                },
            )
        }
    }

    /// The state and the action after a row.
    pub open spec fn after_row(self, row: SchemaRow) -> (LoaderState, SchemaAction) {
        let fail = |e: LimboError| (self.finished(), SchemaAction::Finish(Err(e)));
        let apply = |action: SchemaAction|
            (
                LoaderState {
                    phase: Phase::Applying,
                    automatic_indexes: self.automatic_indexes,
                },
                action,
            );
        match row.ty {
            Err(e) => fail(e),
            Ok(ty) => if ty@ == "table"@ {
                match row.root_page {
                    Err(e) => fail(e),
                    Ok(page) => match row.sql {
                        Err(e) => fail(e),
                        Ok(sql) => apply(
                            SchemaAction::AddTable { sql, root_page: page as usize },
                        ),
                    },
                }
            } else if ty@ == "index"@ {
                match row.root_page {
                    Err(e) => fail(e),
                    Ok(page) => match row.sql {
                        Ok(sql) => apply(
                            SchemaAction::AddIndex { sql, root_page: page as usize },
                        ),
                        Err(_) => match row.name {
                            Err(e) => fail(e),
                            Ok(index_name) => match row.table_name {
                                Err(e) => fail(e),
                                Ok(table_name) => (
                                    LoaderState {
                                        phase: self.phase,
                                        automatic_indexes: self.automatic_indexes.push(
                                            AutomaticIndex {
                                                index_name,
                                                table_name,
                                                root_page: page,
                                            },
                                        ),
                                    },
                                    SchemaAction::Step,
                                ),
                            },
                        },
                    },
                }
            } else {
                (self, SchemaAction::Step)
            },
        }
    }

    /// The state and the action after an event.
    pub open spec fn after(self, event: SchemaEvent) -> (LoaderState, SchemaAction) {
        match event {
            SchemaEvent::Failed(e) => (self.finished(), SchemaAction::Finish(Err(e))),
            SchemaEvent::Row(row) => self.after_row(row),
            SchemaEvent::IO => (
                LoaderState {
                    phase: Phase::Applying,
                    automatic_indexes: self.automatic_indexes,
                },
                SchemaAction::RunIo,
            ),
            SchemaEvent::Interrupt | SchemaEvent::Done | SchemaEvent::Busy => self.drain(),
            SchemaEvent::Applied => if self.phase == Phase::Draining {
                self.drain()
            } else {
                (
                    LoaderState {
                        phase: Phase::Stepping,
                        automatic_indexes: self.automatic_indexes,
                    },
                    SchemaAction::Step,
                )
            },
        }
    }
}

impl SchemaLoader {
    /// Begins to load the schema table, from a statement that reads it if there
    /// is one.
    pub fn start(has_rows: bool) -> (res: (SchemaLoader, SchemaAction))
        ensures
            res.0@.automatic_indexes.len() == 0,
            has_rows ==> res.0@.phase == Phase::Stepping && res.1 == SchemaAction::Step,
            !has_rows ==> res.0@.phase == Phase::Finished && res.1 == SchemaAction::Finish(Ok(())),
    {
        if has_rows {
            (
                SchemaLoader { phase: Phase::Stepping, automatic_indexes: Vec::new() },
                SchemaAction::Step,
            )
        } else {
            (
                SchemaLoader { phase: Phase::Finished, automatic_indexes: Vec::new() },
                SchemaAction::Finish(Ok(())),
            )
        }
    }

    /// What the loader waits for.
    pub fn phase(&self) -> (res: Phase)
        ensures
            res == self@.phase,
    {
        self.phase
    }

    fn finish(&mut self, result: Result<(), LimboError>) -> (res: SchemaAction)
        ensures
            final(self)@ == old(self)@.finished(),
            res == SchemaAction::Finish(result),
    {
        self.phase = Phase::Finished;
        SchemaAction::Finish(result)
    }

    fn drain(&mut self) -> (res: SchemaAction)
        ensures
            (final(self)@, res) == old(self)@.drain(),
    {
        if self.automatic_indexes.len() == 0 {
            return self.finish(Ok(()));
        }
        let ghost all = self.automatic_indexes@;
        let first = self.automatic_indexes.remove(0);
        proof {
            assert(self.automatic_indexes@ =~= all.drop_first());
        }
        self.phase = Phase::Draining;
        SchemaAction::AddAutomaticIndex {
            index_name: first.index_name,
            table_name: first.table_name,
            root_page: first.root_page as usize,
        }
    }

    fn apply(&mut self, action: SchemaAction) -> (res: SchemaAction)
        ensures
            final(self)@ == (LoaderState { phase: Phase::Applying, ..old(self)@ }),
            res == action,
    {
        self.phase = Phase::Applying;
        action
    }

    fn take_row(&mut self, row: SchemaRow) -> (res: SchemaAction)
        ensures
            (final(self)@, res) == old(self)@.after_row(row),
    {
        let ty = match row.ty {
            Err(e) => {
                return self.finish(Err(e));
            },
            Ok(ty) => ty,
        };
        if text::same_text(&ty, "table") {
            let page = match row.root_page {
                Err(e) => {
                    return self.finish(Err(e));
                },
                Ok(page) => page,
            };
            match row.sql {
                Err(e) => self.finish(Err(e)),
                Ok(sql) => self.apply(SchemaAction::AddTable { sql, root_page: page as usize }),
            }
        } else if text::same_text(&ty, "index") {
            let page = match row.root_page {
                Err(e) => {
                    return self.finish(Err(e));
                },
                Ok(page) => page,
            };
            match row.sql {
                Ok(sql) => self.apply(SchemaAction::AddIndex { sql, root_page: page as usize }),
                Err(_) => {
                    // Automatic index on primary key, e.g.
                    // table|foo|foo|2|CREATE TABLE foo (a text PRIMARY KEY, b)
                    // index|sqlite_autoindex_foo_1|foo|3|
                    let index_name = match row.name {
                        Err(e) => {
                            return self.finish(Err(e));
                        },
                        Ok(index_name) => index_name,
                    };
                    let table_name = match row.table_name {
                        Err(e) => {
                            return self.finish(Err(e));
                        },
                        Ok(table_name) => table_name,
                    };
                    // It is added when all tables are loaded, its own among them.
                    self.automatic_indexes.push(
                        AutomaticIndex { index_name, table_name, root_page: page },
                    );
                    SchemaAction::Step
                },
            }
        } else {
            SchemaAction::Step
        }
    }
}

/// Decides what to do next when the last action came to `event`. Rows of
/// tables and indexes are added as they come, automatic indexes when no more
/// rows come, and other rows are passed over. Whatever fails ends it.
pub fn parse_schema_rows(loader: &mut SchemaLoader, event: SchemaEvent) -> (res: SchemaAction)
    requires
        old(loader)@.expects(event),
    ensures
        (final(loader)@, res) == old(loader)@.after(event),
{
    match event {
        SchemaEvent::Failed(e) => loader.finish(Err(e)),
        SchemaEvent::Row(row) => loader.take_row(row),
        SchemaEvent::IO => loader.apply(SchemaAction::RunIo),
        SchemaEvent::Interrupt | SchemaEvent::Done | SchemaEvent::Busy => loader.drain(),
        SchemaEvent::Applied => match loader.phase {
            Phase::Draining => loader.drain(),
            _ => {
                loader.phase = Phase::Stepping;
                SchemaAction::Step
            },
        },
    }
}

/// The state after some events.
pub open spec fn state_after(state: LoaderState, events: Seq<SchemaEvent>) -> LoaderState
    decreases events.len(),
{
    if events.len() == 0 {
        state
    } else {
        state_after(state, events.drop_last()).after(events.last()).0
    }
}

/// The action that the last of some events leads to.
pub open spec fn last_action(state: LoaderState, events: Seq<SchemaEvent>) -> SchemaAction
    recommends
        events.len() > 0,
{
    state_after(state, events.drop_last()).after(events.last()).1
}

/// Each event can come when it comes.
pub open spec fn all_expected(state: LoaderState, events: Seq<SchemaEvent>) -> bool
    decreases events.len(),
{
    events.len() > 0 ==> all_expected(state, events.drop_last()) && state_after(
        state,
        events.drop_last(),
    ).expects(events.last())
}

/// When the first automatic index is added, no table and no other index is
/// added any more: every table is there when an automatic index looks for its
/// own.
pub proof fn automatic_indexes_come_last(
    state: LoaderState,
    events: Seq<SchemaEvent>,
    more: Seq<SchemaEvent>,
)
    requires
        all_expected(state, events + more),
        events.len() > 0,
        more.len() > 0,
        last_action(state, events) is AddAutomaticIndex,
    ensures
        last_action(state, events + more) is AddAutomaticIndex || last_action(
            state,
            events + more,
        ) is Finish,
{
    assert((events + more).drop_last() =~= events + more.drop_last());
    lemma_draining_goes_on(state, events, more.drop_last());
}

proof fn lemma_draining_goes_on(
    state: LoaderState,
    events: Seq<SchemaEvent>,
    more: Seq<SchemaEvent>,
)
    requires
        all_expected(state, events + more),
        events.len() > 0,
        last_action(state, events) is AddAutomaticIndex,
    ensures
        state_after(state, events + more).phase == Phase::Draining || state_after(
            state,
            events + more,
        ).phase == Phase::Finished,
    decreases more.len(),
{
    if more.len() == 0 {
        assert(events + more =~= events);
    } else {
        assert((events + more).drop_last() =~= events + more.drop_last());
        lemma_draining_goes_on(state, events, more.drop_last());
    }
}

/// The action that adds an automatic index.
pub open spec fn adding(index: AutomaticIndex) -> SchemaAction {
    SchemaAction::AddAutomaticIndex {
        index_name: index.index_name,
        table_name: index.table_name,
        root_page: index.root_page as usize,
    }
}

/// When the rows end, the automatic indexes that they told of are added, each
/// once and in the order of their rows, and then loading has succeeded.
pub proof fn every_automatic_index_is_added(state: LoaderState, end: SchemaEvent, n: nat)
    requires
        state.phase == Phase::Stepping,
        end is Done || end is Interrupt || end is Busy,
        n <= state.automatic_indexes.len(),
    ensures
        ({
            let events = seq![end] + Seq::new(n, |i: int| SchemaEvent::Applied);
            &&& all_expected(state, events)
            &&& last_action(state, events) == if n < state.automatic_indexes.len() {
                adding(state.automatic_indexes[n as int])
            } else {
                SchemaAction::Finish(Ok(()))
            }
        }),
{
    lemma_drained(state, end, n);
}

proof fn lemma_drained(state: LoaderState, end: SchemaEvent, n: nat)
    requires
        state.phase == Phase::Stepping,
        end is Done || end is Interrupt || end is Busy,
        n <= state.automatic_indexes.len(),
    ensures
        ({
            let events = seq![end] + Seq::new(n, |i: int| SchemaEvent::Applied);
            &&& all_expected(state, events)
            &&& n < state.automatic_indexes.len() ==> {
                &&& state_after(state, events).phase == Phase::Draining
                &&& state_after(state, events).automatic_indexes == state.automatic_indexes.skip(
                    n as int + 1,
                )
                &&& last_action(state, events) == adding(state.automatic_indexes[n as int])
            }
            &&& n == state.automatic_indexes.len() ==> last_action(state, events)
                == SchemaAction::Finish(Ok(()))
        }),
    decreases n,
{
    let events = seq![end] + Seq::new(n, |i: int| SchemaEvent::Applied);
    if n == 0 {
        assert(events.drop_last() =~= Seq::empty());
        assert(events.last() == end);
        assert(state.automatic_indexes.drop_first() =~= state.automatic_indexes.skip(1));
        assert(all_expected(state, events.drop_last()));
    } else {
        let m = (n - 1) as nat;
        let before = seq![end] + Seq::new(m, |i: int| SchemaEvent::Applied);
        lemma_drained(state, end, m);
        assert(events.drop_last() =~= before);
        assert(events.last() == SchemaEvent::Applied);
        let rest = state_after(state, before).automatic_indexes;
        assert(rest =~= state.automatic_indexes.skip(n as int));
        if n < state.automatic_indexes.len() {
            assert(rest.drop_first() =~= state.automatic_indexes.skip(n as int + 1));
        }
    }
}

/// A failure ends the loading with that failure, and nothing comes after it.
pub proof fn a_failure_ends_it(state: LoaderState, e: LimboError, next: SchemaEvent)
    ensures
        state.after(SchemaEvent::Failed(e)).1 == SchemaAction::Finish(Err(e)),
        !state.after(SchemaEvent::Failed(e)).0.expects(next),
{
}

/// A row of a table has its table added, and a row of an index that has SQL text
/// has its index added: with the text and the root page of the row, and nothing
/// put off.
pub proof fn rows_with_text_are_added(state: LoaderState, row: SchemaRow)
    requires
        row.ty is Ok,
        row.root_page is Ok,
        row.sql is Ok,
    ensures
        ({
            let (next, action) = state.after(SchemaEvent::Row(row));
            let page = row.root_page->Ok_0 as usize;
            &&& row.ty->Ok_0@ == "table"@ ==> action == (SchemaAction::AddTable {
                sql: row.sql->Ok_0,
                root_page: page,
            }) && next.phase == Phase::Applying
            &&& row.ty->Ok_0@ == "index"@ ==> action == (SchemaAction::AddIndex {
                sql: row.sql->Ok_0,
                root_page: page,
            }) && next.phase == Phase::Applying
            &&& next.automatic_indexes == state.automatic_indexes
        }),
{
    lemma_types_differ();
}

proof fn lemma_types_differ()
    ensures
        "table"@ != "index"@,
{
    reveal_strlit("table");
    reveal_strlit("index");
    assert("table"@[0] != "index"@[0]);
}

/// A row of an index without SQL text tells of an automatic index, which is put
/// off, after those before it: its names and root page are those of the row.
pub proof fn rows_without_text_are_put_off(state: LoaderState, row: SchemaRow)
    requires
        row.ty matches Ok(ty) && ty@ == "index"@,
        row.name is Ok,
        row.table_name is Ok,
        row.root_page is Ok,
        row.sql is Err,
    ensures
        ({
            let (next, action) = state.after(SchemaEvent::Row(row));
            let n = state.automatic_indexes.len() as int;
            &&& action == SchemaAction::Step
            &&& next.phase == state.phase
            &&& next.automatic_indexes.len() == n + 1
            &&& next.automatic_indexes.take(n) == state.automatic_indexes
            &&& next.automatic_indexes[n].index_name == row.name->Ok_0
            &&& next.automatic_indexes[n].table_name == row.table_name->Ok_0
            &&& next.automatic_indexes[n].root_page == row.root_page->Ok_0
        }),
{
    lemma_types_differ();
    let (next, action) = state.after(SchemaEvent::Row(row));
    let n = state.automatic_indexes.len() as int;
    assert(next.automatic_indexes.take(n) =~= state.automatic_indexes);
}

/// A row that is of neither a table nor an index is passed over, whatever else
/// it holds.
pub proof fn other_rows_are_passed_over(state: LoaderState, row: SchemaRow)
    requires
        row.ty matches Ok(ty) && ty@ != "table"@ && ty@ != "index"@,
    ensures
        state.after(SchemaEvent::Row(row)) == (state, SchemaAction::Step),
{
}

/// The first column of a row that is needed and cannot be read ends the loading
/// with its failure. The type is needed first, then the root page; then the SQL
/// text of a table, and of an index that has none the two names.
pub proof fn columns_are_read_in_order(state: LoaderState, row: SchemaRow)
    ensures
        ({
            let (next, action) = state.after(SchemaEvent::Row(row));
            let is_table = row.ty matches Ok(ty) && ty@ == "table"@;
            let is_index = row.ty matches Ok(ty) && ty@ == "index"@;
            let of_either = is_table || is_index;
            &&& row.ty matches Err(e) ==> action == SchemaAction::Finish(Err(e))
            &&& of_either ==> (row.root_page matches Err(e) ==> action == SchemaAction::Finish(
                Err(e),
            ))
            &&& is_table && row.root_page is Ok ==> (row.sql matches Err(e) ==> action
                == SchemaAction::Finish(Err(e)))
            &&& is_index && row.root_page is Ok && row.sql is Err ==> (row.name matches Err(e)
                ==> action == SchemaAction::Finish(Err(e)))
            &&& is_index && row.root_page is Ok && row.sql is Err && row.name is Ok ==> (
            row.table_name matches Err(e) ==> action == SchemaAction::Finish(Err(e)))
            &&& action is Finish ==> next.phase == Phase::Finished && next.automatic_indexes
                == state.automatic_indexes
        }),
{
    lemma_types_differ();
}

/// Waiting for I/O has it run once, and then the statement is stepped again, as
/// it is after a table or an index was added. Nothing is put off or forgotten
/// meanwhile.
pub proof fn stepping_goes_on(state: LoaderState)
    ensures
        ({
            let (next, action) = state.after(SchemaEvent::IO);
            &&& action == SchemaAction::RunIo
            &&& next.phase == Phase::Applying
            &&& next.automatic_indexes == state.automatic_indexes
        }),
        state.phase == Phase::Applying ==> {
            let (next, action) = state.after(SchemaEvent::Applied);
            &&& action == SchemaAction::Step
            &&& next.phase == Phase::Stepping
            &&& next.automatic_indexes == state.automatic_indexes
        },
{
}

/// At the end of the rows, however it comes, and after each automatic index, the
/// first that is left is added, with its names and root page; where none is
/// left, loading has succeeded.
pub proof fn the_first_that_is_left_is_added(state: LoaderState, event: SchemaEvent)
    requires
        event is Done || event is Interrupt || event is Busy || (event is Applied && state.phase
            == Phase::Draining),
    ensures
        ({
            let (next, action) = state.after(event);
            let left = state.automatic_indexes;
            &&& left.len() == 0 ==> action == SchemaAction::Finish(Ok(())) && next.phase
                == Phase::Finished
            &&& left.len() > 0 ==> {
                &&& action == (SchemaAction::AddAutomaticIndex {
                    index_name: left[0].index_name,
                    table_name: left[0].table_name,
                    root_page: left[0].root_page as usize,
                })
                &&& next.phase == Phase::Draining
                &&& left == seq![left[0]] + next.automatic_indexes
            }
        }),
{
    let left = state.automatic_indexes;
    if left.len() > 0 {
        assert(left =~= seq![left[0]] + left.drop_first());
    }
}

/// Each action has its outcomes: stepping comes to a row, a wait, an end or a
/// failure; anything else is done or fails; and nothing comes after the end.
pub proof fn actions_have_outcomes(state: LoaderState, event: SchemaEvent)
    ensures
        state.phase == Phase::Stepping ==> (state.expects(event) <==> event !is Applied),
        state.phase == Phase::Applying || state.phase == Phase::Draining ==> (state.expects(event)
            <==> event is Applied || event is Failed),
        state.phase == Phase::Finished ==> !state.expects(event),
{
}

} // verus!
