//! What holds of plans, of the shadow and of assertions as a whole.

use vstd::prelude::*;

use crate::double;
use crate::simulator::env::SimConnection;
use crate::simulator::execution;
use crate::simulator::generation;
use crate::simulator::generation::PlanBuilder;
use crate::simulator::model;
use crate::simulator::model::{Query, TableModel, Value, ValueModel};
use crate::simulator::plan;
use crate::simulator::plan::{Check, Interaction, ResultSet};
use crate::simulator::rendering;
use crate::text;

verus! {

/// The counts of a plan that is put together are the sums of the counts of its
/// parts.
pub proof fn counts_add_up(
    first: Seq<Interaction>,
    second: Seq<Interaction>,
    kind: spec_fn(Query) -> bool,
)
    ensures
        plan::count(first + second, kind) == plan::count(first, kind) + plan::count(second, kind),
    decreases second.len(),
{
    if second.len() == 0 {
        assert(first + second =~= first);
    } else {
        counts_add_up(first, second.drop_last(), kind);
        assert((first + second).drop_last() =~= first + second.drop_last());
    }
}

/// Each query of a plan is counted exactly once.
pub proof fn every_query_is_counted_once(interactions: Seq<Interaction>)
    ensures
        plan::count(interactions, plan::reads()) + plan::count(interactions, plan::writes())
            + plan::count(interactions, plan::deletes()) + plan::count(
            interactions,
            plan::creates(),
        ) == rendering::query_count(interactions) <= interactions.len(),
    decreases interactions.len(),
{
    if interactions.len() > 0 {
        every_query_is_counted_once(interactions.drop_last());
    }
}

/// No two tables have the same name.
pub open spec fn names_differ(tables: Seq<TableModel>) -> bool {
    forall|i: int, j: int|
        0 <= i < j < tables.len() ==> (#[trigger] tables[i]).name != (#[trigger] tables[j]).name
}

/// The shadow never has two tables of the same name.
pub proof fn names_stay_different(tables: Seq<TableModel>, interactions: Seq<Interaction>)
    requires
        names_differ(tables),
    ensures
        match plan::after_interactions(tables, interactions) {
            Some(after) => names_differ(after),
            None => true,
        },
    decreases interactions.len(),
{
    if interactions.len() > 0 {
        let earlier = interactions.drop_last();
        names_stay_different(tables, earlier);
        if let Some(before) = plan::after_interactions(tables, earlier) {
            match interactions.last() {
                Interaction::Query(Query::Create(create)) => {
                    plan::lemma_found(before, create.table.name@);
                },
                Interaction::Query(Query::Insert(insert)) => {
                    plan::lemma_found(before, insert.table@);
                },
                _ => {},
            }
        }
    }
}

/// The table has become the other one: it has gained rows, at its end, and
/// nothing else has changed.
pub open spec fn has_gained(before: TableModel, after: TableModel) -> bool {
    &&& after.name == before.name
    &&& after.columns == before.columns
    &&& before.rows.is_prefix_of(after.rows)
}

/// The shadow loses neither tables nor rows, and keeps them in order.
pub proof fn nothing_is_lost(tables: Seq<TableModel>, interactions: Seq<Interaction>)
    ensures
        match plan::after_interactions(tables, interactions) {
            Some(after) => {
                &&& tables.len() <= after.len()
                &&& forall|i: int|
                    0 <= i < tables.len() ==> has_gained(tables[i], #[trigger] after[i])
            },
            None => true,
        },
    decreases interactions.len(),
{
    if interactions.len() > 0 {
        let earlier = interactions.drop_last();
        nothing_is_lost(tables, earlier);
        if let Some(before) = plan::after_interactions(tables, earlier) {
            match interactions.last() {
                Interaction::Query(Query::Insert(insert)) => {
                    plan::lemma_found(before, insert.table@);
                },
                _ => {},
            }
        }
    }
}

/// After a row has been inserted and selected, the shadow of the table has the
/// row at its end, and the other tables are as they were.
pub proof fn an_inserted_row_is_in_the_shadow(
    tables: Seq<TableModel>,
    interactions: Seq<Interaction>,
    i: int,
    column_index: int,
    row: Seq<ValueModel>,
    shown: Seq<Seq<char>>,
)
    requires
        names_differ(tables),
        0 <= i < tables.len(),
        generation::is_insert_select(interactions, tables[i], column_index, row, shown),
    ensures
        plan::after_interactions(tables, interactions) == Some(
            tables.update(i, TableModel { rows: tables[i].rows.push(row), ..tables[i] }),
        ),
{
    reveal_with_fuel(plan::after_interactions, 4);
    plan::lemma_found(tables, tables[i].name);
    let two = interactions.drop_last();
    let one = two.drop_last();
    assert(one.drop_last() =~= Seq::empty());
    assert(one.last() == interactions[0]);
    assert(two.last() == interactions[1]);
    assert(tables[i].rows + seq![row] =~= tables[i].rows.push(row));
}

/// To create a table a second time changes nothing.
pub proof fn a_second_creation_changes_nothing(
    tables: Seq<TableModel>,
    first: Interaction,
    second: Interaction,
    table: TableModel,
)
    requires
        generation::is_creation(first, table),
        generation::is_creation(second, table),
    ensures
        plan::after_interactions(tables, seq![first, second]) == plan::after_interactions(
            tables,
            seq![first],
        ),
        plan::after_interactions(tables, seq![first]) is Some,
{
    reveal_with_fuel(plan::after_interactions, 3);
    assert(seq![first, second].drop_last() =~= seq![first]);
    assert(seq![first].drop_last() =~= Seq::empty());
    plan::lemma_found(tables, table.name);
    let more = tables.push(table);
    plan::lemma_found(more, table.name);
    assert(more[tables.len() as int].name == table.name);
}

/// Whatever part of a plan can be shadowed at all is shadowed the same way,
/// whether it is taken in one piece or in two.
pub proof fn shadows_add_up(
    tables: Seq<TableModel>,
    first: Seq<Interaction>,
    second: Seq<Interaction>,
)
    ensures
        plan::after_interactions(tables, first + second) == match plan::after_interactions(
            tables,
            first,
        ) {
            Some(after) => plan::after_interactions(after, second),
            None => None,
        },
    decreases second.len(),
{
    if second.len() == 0 {
        assert(first + second =~= first);
    } else {
        shadows_add_up(tables, first, second.drop_last());
        assert((first + second).drop_last() =~= first + second.drop_last());
    }
}

/// The row has no double that is no number.
pub open spec fn has_only_numbers(row: Seq<ValueModel>) -> bool {
    forall|i: int|
        0 <= i < row.len() ==> match #[trigger] row[i] {
            ValueModel::Float(bits) => !double::is_nan(bits),
            _ => true,
        }
}

/// A query that returns the row, wherever among its rows, meets the demand for
/// it.
pub proof fn a_returned_row_is_found(row: Vec<Value>, rows: Vec<Vec<Value>>, i: int)
    requires
        0 <= i < rows@.len(),
        model::row_model(rows@[i]@) == model::row_model(row@),
        has_only_numbers(model::row_model(row@)),
    ensures
        execution::is_met(Check::RowReturned(row), Ok(rows)),
{
    let wanted = model::row_model(row@);
    assert(model::rows_model(rows@)[i] == wanted);
    assert(model::same_row(model::rows_model(rows@)[i], wanted));
}

/// A row that has a double that is no number is never found.
pub proof fn a_row_with_no_number_is_not_found(row: Vec<Value>, last: ResultSet)
    requires
        !has_only_numbers(model::row_model(row@)),
    ensures
        !execution::is_met(Check::RowReturned(row), last),
{
    let wanted = model::row_model(row@);
    if let Ok(rows) = last {
        if execution::has_row(model::rows_model(rows@), wanted) {
            let all = model::rows_model(rows@);
            let i = choose|i: int|
                0 <= i < all.len() && model::same_row(#[trigger] all[i], wanted);
            assert forall|j: int| 0 <= j < wanted.len() implies match #[trigger] wanted[j] {
                ValueModel::Float(bits) => !double::is_nan(bits),
                _ => true,
            } by {
                assert(model::same_value(all[i][j], wanted[j]));
            }
        }
    }
}

/// The refusal to create a table that exists, whatever else it says, meets the
/// demand for it.
pub proof fn the_refusal_is_recognized(
    name: String,
    last: ResultSet,
    before: Seq<char>,
    after: Seq<char>,
)
    requires
        last matches Err(e) && e.text@ == before + execution::table_exists_text(name@) + after,
    ensures
        execution::is_met(Check::TableExists(name), last),
{
    if let Err(e) = last {
        let wanted = execution::table_exists_text(name@);
        let n = before.len() as int;
        assert(e.text@.subrange(n, n + wanted.len()) =~= wanted);
        assert(text::occurs_at(wanted, e.text@, n));
    }
}

/// After a disconnection the connection is not connected, the others are as
/// they were, and to disconnect it once more changes nothing.
pub proof fn a_disconnection_lasts(connections: Seq<SimConnection>, i: int, closed: bool)
    requires
        0 <= i < connections.len(),
    ensures
        ({
            let after = execution::after_disconnect(connections, i, true);
            &&& after.len() == connections.len()
            &&& after[i] == SimConnection::Disconnected
            &&& forall|j: int| 0 <= j < after.len() && j != i ==> after[j] == connections[j]
            &&& execution::after_disconnect(after, i, closed) == after
        }),
{
    let after = execution::after_disconnect(connections, i, true);
    assert(execution::after_disconnect(after, i, closed) =~= after);
}

/// A plan that is made until it is long enough is hardly longer: to put at most
/// three interactions at the end of one that needs more leaves at most two too
/// many.
pub proof fn a_plan_is_hardly_too_long(
    before: PlanBuilder,
    interactions: Seq<Interaction>,
    after: PlanBuilder,
)
    requires
        before.plan.plan@.len() < before.env.max_interactions,
        interactions.len() <= 3,
        after.plan.plan@ == before.plan.plan@ + interactions,
        after.env.max_interactions == before.env.max_interactions,
    ensures
        after.plan.plan@.len() <= after.env.max_interactions + 2,
{
}

/// The interaction creates a table of a name.
pub open spec fn creates_named(interaction: Interaction, name: Seq<char>) -> bool {
    interaction matches Interaction::Query(Query::Create(create)) && create.table.name@ == name
}

/// In a plan that is made, each insertion comes after the creation of its table,
/// and nothing is deleted.
pub proof fn insertions_follow_creations(builder: PlanBuilder, i: int)
    requires
        builder.wf(),
        0 <= i < builder.plan.plan@.len(),
    ensures
        match builder.plan.plan@[i] {
            Interaction::Query(Query::Insert(insert)) => exists|j: int|
                0 <= j < i && creates_named(#[trigger] builder.plan.plan@[j], insert.table@),
            Interaction::Query(Query::Delete(_)) => false,
            _ => true,
        },
{
    let none = Seq::<TableModel>::empty();
    let all = builder.plan.plan@;
    let earlier = all.take(i);
    plan::lemma_told_before(none, all, i + 1);
    assert(all.take(i + 1).drop_last() =~= earlier);
    assert(all.take(i + 1).last() == all[i]);
    let tables = plan::after_interactions(none, earlier)->0;
    if let Interaction::Query(Query::Insert(insert)) = all[i] {
        let k = plan::find_table(tables, insert.table@);
        plan::lemma_found(tables, insert.table@);
        lemma_tables_were_created(earlier, k);
        let j = choose|j: int|
            0 <= j < earlier.len() && creates_named(#[trigger] earlier[j], tables[k].name);
        assert(all[j] == earlier[j]);
    }
}

proof fn lemma_tables_were_created(interactions: Seq<Interaction>, k: int)
    requires
        plan::after_interactions(Seq::empty(), interactions) is Some,
        0 <= k < plan::after_interactions(Seq::empty(), interactions)->0.len(),
    ensures
        exists|j: int|
            0 <= j < interactions.len() && creates_named(
                #[trigger] interactions[j],
                plan::after_interactions(Seq::empty(), interactions)->0[k].name,
            ),
    decreases interactions.len(),
{
    let none = Seq::<TableModel>::empty();
    let n = interactions.len() - 1;
    let earlier = interactions.drop_last();
    let before = plan::after_interactions(none, earlier)->0;
    let after = plan::after_interactions(none, interactions)->0;
    if let Interaction::Query(Query::Insert(insert)) = interactions.last() {
        plan::lemma_found(before, insert.table@);
    }
    if k < before.len() {
        lemma_tables_were_created(earlier, k);
        let j = choose|j: int|
            0 <= j < earlier.len() && creates_named(#[trigger] earlier[j], before[k].name);
        assert(interactions[j] == earlier[j]);
    } else {
        assert(creates_named(interactions[n], after[k].name));
    }
}

} // verus!
