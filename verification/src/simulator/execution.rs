//! Carrying interactions out.

use vstd::prelude::*;
use vstd::string::*;

use crate::error::LimboError;
use crate::simulator::env::{SimConnection, SimulatorEnv};
use crate::simulator::model;
use crate::simulator::model::{Value, ValueModel};
use crate::simulator::plan::{Assertion, Check, Fault, Interaction, QueryError, ResultSet};
use crate::text;

verus! {

/// What the database answers while a query is carried out.
#[derive(Debug)]
pub enum QueryEvent {
    /// The query is accepted, and its rows can be read.
    Opened,
    /// The query is refused.
    Refused(QueryError),
    /// A row.
    Row(Vec<Value>),
    /// It waits for I/O.
    IO,
    /// It was interrupted.
    Interrupt,
    /// There are no more rows.
    Done,
    /// It is busy.
    Busy,
    /// Reading the next row failed.
    Failed,
}

/// What to do next.
#[derive(Debug)]
pub enum QueryStep {
    /// Read the next row.
    Next,
    /// Nothing: this is what the query came to.
    Return(ResultSet),
}

/// How far a query has been carried out.
#[derive(Debug)]
pub struct QueryRun {
    /// The query has been accepted.
    pub opened: bool,
    /// The query has come to its end.
    pub returned: bool,
    /// The rows so far.
    pub out: Vec<Vec<Value>>,
}

impl QueryRun {
    /// What the database can answer.
    pub open spec fn expects(self, event: QueryEvent) -> bool {
        &&& !self.returned
        &&& self.opened <==> !(event is Opened || event is Refused)
    }

    /// From this state, an answer leads to a next state and to what to do.
    pub open spec fn leads_to(self, event: QueryEvent, next: QueryRun, step: QueryStep) -> bool {
        &&& next.opened
        &&& next.returned == (step is Return)
        &&& match event {
            QueryEvent::Refused(e) => {
                &&& step == QueryStep::Return(Err(e))
                &&& next.out@ == self.out@
            },
            QueryEvent::Row(row) => {
                &&& step is Next
                &&& next.out@ == self.out@.push(row)
            },
            QueryEvent::Done | QueryEvent::Failed => {
                &&& step matches QueryStep::Return(Ok(rows))
                &&& rows@ == self.out@
                &&& next.out@.len() == 0
            },
            QueryEvent::Opened | QueryEvent::IO | QueryEvent::Interrupt | QueryEvent::Busy => {
                &&& step is Next
                &&& next.out@ == self.out@
            },
        }
    }

    /// A query that has been sent.
    pub fn start() -> (res: Self)
        ensures
            !res.opened,
            !res.returned,
            res.out@.len() == 0,
    {
        QueryRun { opened: false, returned: false, out: Vec::new() }
    }
}

impl Interaction {
    /// Takes what the database answers and decides what to do next. What a
    /// query comes to is all of its rows up to the end, or up to the first that
    /// cannot be read.
    pub fn execute_query(&self, run: &mut QueryRun, event: QueryEvent) -> (res: QueryStep)
        requires
            *self is Query,
            old(run).expects(event),
        ensures
            old(run).leads_to(event, *final(run), res),
    {
        run.opened = true;
        match event {
            QueryEvent::Refused(e) => {
                run.returned = true;
                QueryStep::Return(Err(e))
            },
            QueryEvent::Row(row) => {
                run.out.push(row);
                QueryStep::Next
            },
            QueryEvent::Done | QueryEvent::Failed => {
                run.returned = true;
                let mut rows: Vec<Vec<Value>> = Vec::new();
                std::mem::swap(&mut rows, &mut run.out);
                QueryStep::Return(Ok(rows))
            },
            QueryEvent::Opened | QueryEvent::IO | QueryEvent::Interrupt | QueryEvent::Busy => {
                QueryStep::Next
            },
        }
    }
}

/// Some rows have a row.
pub open spec fn has_row(rows: Seq<Seq<ValueModel>>, row: Seq<ValueModel>) -> bool {
    exists|i: int| 0 <= i < rows.len() && model::same_row(#[trigger] rows[i], row)
}

/// What the database says when a table is created that exists.
pub open spec fn table_exists_text(name: Seq<char>) -> Seq<char> {
    "Table "@ + name + " already exists"@
}

/// The demand is met by what the last query came to.
pub open spec fn is_met(check: Check, last: ResultSet) -> bool {
    match check {
        Check::RowReturned(row) => match last {
            Ok(rows) => has_row(model::rows_model(rows@), model::row_model(row@)),
            Err(_) => false,
        },
        Check::TableExists(name) => match last {
            Ok(_) => false,
            Err(e) => text::occurs(table_exists_text(name@), e.text@),
        },
    }
}

fn rows_have(rows: &Vec<Vec<Value>>, row: &Vec<Value>) -> (res: bool)
    ensures
        res == has_row(model::rows_model(rows@), model::row_model(row@)),
{
    for i in 0..rows.len()
        invariant
            forall|j: int|
                0 <= j < i ==> !model::same_row(
                    #[trigger] model::rows_model(rows@)[j],
                    model::row_model(row@),
                ),
    {
        if model::eq_rows(&rows[i], row) {
            proof {
                assert(model::same_row(
                    model::rows_model(rows@)[i as int],
                    model::row_model(row@),
                ));
            }
            return true;
        }
    }
    false
}

impl Check {
    /// Tells whether the demand is met by what the last query came to.
    pub fn holds(&self, last: &ResultSet) -> (res: bool)
        ensures
            res == is_met(*self, *last),
    {
        match self {
            Check::RowReturned(row) => match last {
                Ok(rows) => rows_have(rows, row),
                Err(_) => false,
            },
            Check::TableExists(name) => match last {
                Ok(_) => false,
                Err(e) => {
                    let wanted = "Table ".to_owned().concat(name).concat(" already exists");
                    text::contains(&e.text, &wanted)
                },
            },
        }
    }
}

/// The connections after one is to be disconnected: it is, unless closing it
/// fails.
pub open spec fn after_disconnect(
    connections: Seq<SimConnection>,
    i: int,
    closed: bool,
) -> Seq<SimConnection> {
    if closed {
        connections.update(i, SimConnection::Disconnected)
    } else {
        connections
    }
}

impl Interaction {
    /// Carries an assertion out: it fails with its message where what the last
    /// query came to does not meet it.
    pub fn execute_assertion(&self, stack: &Vec<ResultSet>) -> (res: Result<(), LimboError>)
        requires
            *self is Assertion,
            stack@.len() > 0,
        ensures
            match *self {
                Interaction::Assertion(assertion) => if is_met(assertion.check, stack@.last()) {
                    res is Ok
                } else {
                    res matches Err(LimboError::InternalError(m)) && m@ == assertion.message@
                },
                _ => true,
            },
    {
        match self {
            Interaction::Assertion(assertion) => {
                if assertion.check.holds(&stack[stack.len() - 1]) {
                    Ok(())
                } else {
                    Err(LimboError::InternalError(assertion.message.clone()))
                }
            },
            _ => Ok(()),
        }
    }

    /// Tells whether the connection is to be closed before the fault is carried
    /// out: it is if it is connected.
    pub fn needs_closing(&self, env: &SimulatorEnv, conn_index: usize) -> (res: bool)
        requires
            *self is Fault,
            conn_index < env.connections@.len(),
        ensures
            res == (env.connections@[conn_index as int] == SimConnection::Connected),
    {
        match env.connections[conn_index] {
            SimConnection::Connected => true,
            SimConnection::Disconnected => false,
        }
    }

    /// Carries a fault out on a connection. `closed` is what closing the
    /// connection came to, and does not matter where it needed no closing.
    pub fn execute_fault(
        &self,
        env: &mut SimulatorEnv,
        conn_index: usize,
        closed: Result<(), LimboError>,
    ) -> (res: Result<(), LimboError>)
        requires
            *self is Fault,
            conn_index < old(env).connections@.len(),
        ensures
            match old(env).connections@[conn_index as int] {
                SimConnection::Connected => res == closed,
                SimConnection::Disconnected => {
                    &&& res matches Err(LimboError::InternalError(m))
                    &&& m@ == "Tried to disconnect a disconnected connection"@
                },
            },
            final(env).connections@ == after_disconnect(
                old(env).connections@,
                conn_index as int,
                closed is Ok,
            ),
            final(env).tables == old(env).tables,
            final(env).max_interactions == old(env).max_interactions,
            final(env).rng_seed == old(env).rng_seed,
    {
        match env.connections[conn_index] {
            SimConnection::Connected => {
                if closed.is_ok() {
                    env.connections.set(conn_index, SimConnection::Disconnected);
                }
                closed
            },
            SimConnection::Disconnected => Err(
                LimboError::InternalError(
                    "Tried to disconnect a disconnected connection".to_owned(),
                ),
            ),
        }
    }
}

/// The rows among what the database answers, in order.
pub open spec fn rows_among(events: Seq<QueryEvent>) -> Seq<Vec<Value>>
    decreases events.len(),
{
    if events.len() == 0 {
        Seq::empty()
    } else {
        match events.last() {
            QueryEvent::Row(row) => rows_among(events.drop_last()).push(row),
            _ => rows_among(events.drop_last()),
        }
    }
}

/// What a query comes to are the rows that the database answered with, all of
/// them and in order.
pub proof fn all_rows_are_returned(
    runs: Seq<QueryRun>,
    events: Seq<QueryEvent>,
    steps: Seq<QueryStep>,
)
    requires
        runs.len() == events.len() + 1,
        steps.len() == events.len(),
        events.len() > 0,
        runs[0].out@.len() == 0,
        forall|i: int|
            0 <= i < events.len() ==> #[trigger] runs[i].leads_to(
                events[i],
                runs[i + 1],
                steps[i],
            ),
        forall|i: int| 0 <= i < events.len() - 1 ==> #[trigger] steps[i] is Next,
    ensures
        steps.last() matches QueryStep::Return(Ok(rows)) ==> rows@ == rows_among(events),
{
    let n = events.len() - 1;
    lemma_rows_so_far(runs, events, steps, n);
    assert(runs[n].leads_to(events[n], runs[n + 1], steps[n]));
    assert(events.drop_last() =~= events.take(n));
}

proof fn lemma_rows_so_far(
    runs: Seq<QueryRun>,
    events: Seq<QueryEvent>,
    steps: Seq<QueryStep>,
    n: int,
)
    requires
        runs.len() == events.len() + 1,
        steps.len() == events.len(),
        0 <= n < events.len(),
        runs[0].out@.len() == 0,
        forall|i: int|
            0 <= i < events.len() ==> #[trigger] runs[i].leads_to(
                events[i],
                runs[i + 1],
                steps[i],
            ),
        forall|i: int| 0 <= i < events.len() - 1 ==> #[trigger] steps[i] is Next,
    ensures
        runs[n].out@ == rows_among(events.take(n)),
    decreases n,
{
    if n == 0 {
        assert(runs[0].out@ =~= rows_among(events.take(0)));
    } else {
        let m = n - 1;
        lemma_rows_so_far(runs, events, steps, m);
        assert(runs[m].leads_to(events[m], runs[m + 1], steps[m]));
        assert(steps[m] is Next);
        assert(events.take(n).drop_last() =~= events.take(m));
    }
}

} // verus!
