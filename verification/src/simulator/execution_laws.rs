//! What holds of carrying out every interaction.

use vstd::prelude::*;
use vstd::string::*;

use crate::simulator::env::SimConnection;
use crate::simulator::execution;
use crate::simulator::execution::{QueryEvent, QueryRun, QueryStep};
use crate::simulator::model;
use crate::simulator::model::Value;
use crate::simulator::model_laws;
use crate::simulator::plan::{Check, QueryError};
use crate::text;
use crate::text_laws;

verus! {

/// A row is kept after those before it; at the end, also where a row cannot be
/// read, the rows that were kept are returned; a refusal is returned as it is;
/// anything else changes nothing but that the query has been sent.
pub proof fn what_an_answer_leads_to(
    run: QueryRun,
    event: QueryEvent,
    next: QueryRun,
    step: QueryStep,
)
    requires
        run.leads_to(event, next, step),
    ensures
        next.opened,
        next.returned <==> step is Return,
        event matches QueryEvent::Row(row) ==> step is Next && next.out@.len() == run.out@.len() + 1
            && next.out@.last() == row && next.out@.drop_last() == run.out@,
        event is Done || event is Failed ==> (step matches QueryStep::Return(Ok(rows)) && rows@
            == run.out@),
        event matches QueryEvent::Refused(e) ==> (step matches QueryStep::Return(Err(f)) && f
            == e),
        event is Opened || event is IO || event is Interrupt || event is Busy ==> step is Next
            && next.out@ == run.out@,
{
    if let QueryEvent::Row(row) = event {
        assert(next.out@.drop_last() =~= run.out@);
    }
}

/// A query is accepted or refused first, and once; its rows come after that, and
/// nothing comes after its end.
pub proof fn answers_come_in_order(run: QueryRun, event: QueryEvent)
    ensures
        run.expects(event) <==> {
            &&& !run.returned
            &&& !run.opened ==> event is Opened || event is Refused
            &&& run.opened ==> event !is Opened && event !is Refused
        },
{
}

/// The demand for a row is met exactly if some row that the last query returned
/// has its length and agrees with it in every column.
pub proof fn a_row_is_found_only_if_it_was_returned(row: Vec<Value>, rows: Vec<Vec<Value>>)
    ensures
        execution::is_met(Check::RowReturned(row), Ok(rows)) <==> exists|i: int|
            0 <= i < rows@.len() && (#[trigger] rows@[i])@.len() == row@.len() && (forall|k: int|
                0 <= k < row@.len() ==> model_laws::agree(#[trigger] rows@[i]@[k], row@[k])),
{
    let all = model::rows_model(rows@);
    let wanted = model::row_model(row@);
    if execution::is_met(Check::RowReturned(row), Ok(rows)) {
        let i = choose|i: int| 0 <= i < all.len() && model::same_row(#[trigger] all[i], wanted);
        assert(all[i] == model::row_model(rows@[i]@));
        model_laws::same_rows_agree(rows@[i]@, row@);
    }
    if exists|i: int|
        0 <= i < rows@.len() && (#[trigger] rows@[i])@.len() == row@.len() && (forall|k: int|
            0 <= k < row@.len() ==> model_laws::agree(#[trigger] rows@[i]@[k], row@[k])) {
        let i = choose|i: int|
            0 <= i < rows@.len() && (#[trigger] rows@[i])@.len() == row@.len() && (forall|k: int|
                0 <= k < row@.len() ==> model_laws::agree(#[trigger] rows@[i]@[k], row@[k]));
        model_laws::same_rows_agree(rows@[i]@, row@);
        assert(all[i] == model::row_model(rows@[i]@));
    }
}

/// A refused query returned no row, and an accepted one was not refused.
pub proof fn demands_look_at_the_right_outcome(
    row: Vec<Value>,
    name: String,
    rows: Vec<Vec<Value>>,
    e: QueryError,
)
    ensures
        !execution::is_met(Check::RowReturned(row), Err(e)),
        !execution::is_met(Check::TableExists(name), Ok(rows)),
{
}

/// The demand that a table exists is met exactly if the refusal says so of that
/// table somewhere.
pub proof fn a_refusal_names_the_table(name: String, e: QueryError)
    ensures
        execution::is_met(Check::TableExists(name), Err(e)) <==> exists|
            x: Seq<char>,
            y: Seq<char>,
        |
            e.text@ == #[trigger] (x + ("Table "@ + name@ + " already exists"@) + y),
{
    text_laws::what_occurs_is_a_part("Table "@ + name@ + " already exists"@, e.text@);
}

/// A connection is disconnected exactly if it was closed, and no other changes.
pub proof fn a_disconnection_is_of_one_connection(
    connections: Seq<SimConnection>,
    i: int,
    closed: bool,
    j: int,
)
    requires
        0 <= i < connections.len(),
        0 <= j < connections.len(),
    ensures
        execution::after_disconnect(connections, i, closed).len() == connections.len(),
        execution::after_disconnect(connections, i, closed)[j] == if closed && j == i {
            SimConnection::Disconnected
        } else {
            connections[j]
        },
{
}

} // verus!
