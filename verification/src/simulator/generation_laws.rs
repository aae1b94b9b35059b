//! What holds of all interactions that are made.

use vstd::prelude::*;
use vstd::string::*;

use crate::simulator::execution;
use crate::simulator::generation;
use crate::simulator::generation::PlanBuilder;
use crate::simulator::laws;
use crate::simulator::model;
use crate::simulator::model::{Predicate, Query, TableModel, Value, ValueModel};
use crate::simulator::plan;
use crate::simulator::plan::{Check, Interaction};

verus! {

/// A row meets a condition that a column has a value: the row has that value in
/// the column.
pub open spec fn meets(
    row: Seq<ValueModel>,
    table: TableModel,
    column: int,
    predicate: Predicate,
) -> bool {
    predicate matches Predicate::Eq(name, value) && name@ == table.columns[column].name && value@
        == row[column]
}

/// The row that is inserted is the one that is demanded, it meets the condition
/// of the selection in the column that was chosen, and all of it is of the same
/// table.
pub proof fn the_inserted_row_is_selected(
    interactions: Seq<Interaction>,
    table: TableModel,
    column: int,
    row: Seq<ValueModel>,
    shown: Seq<Seq<char>>,
)
    requires
        generation::is_insert_select(interactions, table, column, row, shown),
    ensures
        interactions.len() == 3,
        interactions[0] matches Interaction::Query(Query::Insert(insert)) && (
        interactions[1] matches Interaction::Query(Query::Select(select)) && (
        interactions[2] matches Interaction::Assertion(assertion) && (
        assertion.check matches Check::RowReturned(wanted) && {
            &&& insert.values@.len() == 1
            &&& model::row_model(insert.values@[0]@) == row
            &&& model::row_model(wanted@) == row
            &&& meets(model::row_model(insert.values@[0]@), table, column, select.predicate)
            &&& insert.table@ == table.name
            &&& select.table@ == table.name
            &&& assertion.message@ == "row ["@ + generation::debug_text(shown)
                + "] not found in table "@ + table.name + " after inserting ("@
                + table.columns[column].name + " = "@ + shown[column] + ")"@
        }))),
{
    if let Interaction::Query(Query::Insert(insert)) = interactions[0] {
        let rows = model::rows_model(insert.values@);
        assert(rows.len() == insert.values@.len());
        assert(rows[0] == model::row_model(insert.values@[0]@));
    }
}

/// A database that gives back the inserted row, among whatever others, meets
/// the demand, unless the row has a double that is no number.
pub proof fn an_honest_database_meets_the_demand(
    interactions: Seq<Interaction>,
    table: TableModel,
    column: int,
    row: Seq<ValueModel>,
    shown: Seq<Seq<char>>,
    rows: Vec<Vec<Value>>,
    i: int,
)
    requires
        generation::is_insert_select(interactions, table, column, row, shown),
        laws::has_only_numbers(row),
        0 <= i < rows@.len(),
        model::row_model(rows@[i]@) == row,
    ensures
        interactions[2] matches Interaction::Assertion(assertion) && execution::is_met(
            assertion.check,
            Ok(rows),
        ),
{
    if let Interaction::Assertion(assertion) = interactions[2] {
        if let Check::RowReturned(wanted) = assertion.check {
            laws::a_returned_row_is_found(wanted, rows, i);
        }
    }
}

/// A creation is a query that creates exactly the table.
pub proof fn a_creation_is_of_its_table(x: Interaction, table: TableModel)
    ensures
        generation::is_creation(x, table) <==> (x matches Interaction::Query(
            Query::Create(create),
        ) && create.table@ == table),
{
}

/// A plan in the making begins with a creation, and its shadow is what it leaves
/// behind of an empty database.
pub proof fn a_plan_and_its_shadow_go_together(builder: PlanBuilder)
    ensures
        builder.wf() <==> {
            &&& builder.plan.plan@.len() > 0
            &&& builder.plan.plan@[0] matches Interaction::Query(Query::Create(_))
            &&& plan::after_interactions(Seq::empty(), builder.plan.plan@) == Some(
                builder.env.shadow_tables(),
            )
        },
{
}

/// The texts of strings are theirs, in order.
pub proof fn texts_are_told(strings: Seq<String>, i: int)
    ensures
        generation::texts_of(strings).len() == strings.len(),
        0 <= i < strings.len() ==> generation::texts_of(strings)[i] == strings[i]@,
{
}

} // verus!
