//! What holds of each interaction of a plan: how it counts, what it does to the
//! shadow, and how it is shown.

use vstd::prelude::*;
use vstd::string::*;

use crate::simulator::model;
use crate::simulator::model::{Query, TableModel};
use crate::simulator::plan;
use crate::simulator::plan::{Assertion, Fault, Interaction, InteractionStats};
use crate::simulator::rendering;
use crate::text;

verus! {

/// A selection counts as one read, an insertion as one write, a deletion and a
/// creation as one each, and nothing else counts.
pub proof fn each_query_counts_as_one(x: Interaction)
    ensures
        plan::count(seq![x], plan::reads()) == if x matches Interaction::Query(Query::Select(_)) {
            1nat
        } else {
            0
        },
        plan::count(seq![x], plan::writes()) == if x matches Interaction::Query(Query::Insert(_)) {
            1nat
        } else {
            0
        },
        plan::count(seq![x], plan::deletes()) == if x matches Interaction::Query(
            Query::Delete(_),
        ) {
            1nat
        } else {
            0
        },
        plan::count(seq![x], plan::creates()) == if x matches Interaction::Query(
            Query::Create(_),
        ) {
            1nat
        } else {
            0
        },
        rendering::query_count(seq![x]) == if x is Query {
            1nat
        } else {
            0
        },
{
    reveal_with_fuel(plan::count, 2);
    reveal_with_fuel(rendering::query_count, 2);
    assert(seq![x].drop_last() =~= Seq::empty());
}

/// A table is found where the first of its name is, and after all of them if
/// none has it.
pub proof fn the_first_table_of_a_name_is_found(
    tables: Seq<TableModel>,
    name: Seq<char>,
    i: int,
)
    requires
        0 <= i <= tables.len(),
        forall|j: int| 0 <= j < i ==> (#[trigger] tables[j]).name != name,
        i < tables.len() ==> tables[i].name == name,
    ensures
        plan::find_table(tables, name) == i,
{
    plan::lemma_found(tables, name);
}

/// To create a table of a new name puts it at the end of the shadow, and to
/// create one of a name that is taken changes nothing.
pub proof fn a_creation_adds_its_table(tables: Seq<TableModel>, x: Interaction)
    requires
        x matches Interaction::Query(Query::Create(_)),
    ensures
        x matches Interaction::Query(Query::Create(create)) && {
            let after = plan::after_interactions(tables, seq![x]);
            &&& (forall|j: int|
                0 <= j < tables.len() ==> (#[trigger] tables[j]).name != create.table.name@)
                ==> after == Some(tables + seq![create.table@])
            &&& (exists|j: int|
                0 <= j < tables.len() && (#[trigger] tables[j]).name == create.table.name@)
                ==> after == Some(tables)
        },
{
    lemma_one(tables, x);
    if let Interaction::Query(Query::Create(create)) = x {
        plan::lemma_found(tables, create.table.name@);
        assert(tables + seq![create.table@] =~= tables.push(create.table@));
    }
}

/// To insert into a table puts the rows after those of the first table of its
/// name, and changes nothing else. There is no telling what it does where there
/// is no such table.
pub proof fn an_insertion_adds_its_rows(tables: Seq<TableModel>, x: Interaction, i: int)
    requires
        0 <= i <= tables.len(),
        x matches Interaction::Query(Query::Insert(insert)) && (forall|j: int|
            0 <= j < i ==> (#[trigger] tables[j]).name != insert.table@) && (i < tables.len()
            ==> tables[i].name == insert.table@),
    ensures
        i == tables.len() ==> plan::after_interactions(tables, seq![x]) is None,
        i < tables.len() ==> (x matches Interaction::Query(Query::Insert(insert)) && (
        plan::after_interactions(tables, seq![x]) matches Some(after) && {
            &&& after.len() == tables.len()
            &&& after[i].name == tables[i].name
            &&& after[i].columns == tables[i].columns
            &&& after[i].rows == tables[i].rows + model::rows_model(insert.values@)
            &&& forall|j: int|
                0 <= j < tables.len() && j != i ==> #[trigger] after[j] == tables[j]
        })),
{
    lemma_one(tables, x);
    if let Interaction::Query(Query::Insert(insert)) = x {
        the_first_table_of_a_name_is_found(tables, insert.table@, i);
    }
}

/// Selections, assertions and faults change nothing; there is no telling what a
/// deletion does; and to do nothing changes nothing.
pub proof fn nothing_else_changes_the_shadow(tables: Seq<TableModel>, x: Interaction)
    ensures
        x matches Interaction::Query(Query::Delete(_)) ==> plan::after_interactions(
            tables,
            seq![x],
        ) is None,
        (x matches Interaction::Query(Query::Select(_))) || x is Assertion || x is Fault
            ==> plan::after_interactions(tables, seq![x]) == Some(tables),
        plan::after_interactions(tables, Seq::empty()) == Some(tables),
{
    lemma_one(tables, x);
}

proof fn lemma_one(tables: Seq<TableModel>, x: Interaction)
    ensures
        plan::after_interactions(tables, seq![x]) == plan::after_interaction(tables, x),
{
    reveal_with_fuel(plan::after_interactions, 2);
    assert(seq![x].drop_last() =~= Seq::empty());
}

/// A query is shown as its SQL text; an assertion and a fault by what they are,
/// and what they say.
pub proof fn interactions_are_shown(
    query: Query,
    assertion: Assertion,
    fault: Fault,
    sql: Seq<char>,
)
    ensures
        rendering::interaction_text(Interaction::Query(query), sql) == sql,
        rendering::interaction_text(Interaction::Assertion(assertion), sql) == "ASSERT: "@
            + assertion.message@,
        rendering::interaction_text(Interaction::Fault(fault), sql) == "FAULT: "@
            + rendering::fault_text(fault),
        rendering::fault_text(Fault::Disconnect) == "DISCONNECT"@,
{
}

/// Each interaction adds one line to a plan, which ends in a semicolon: a query
/// its own SQL text, and anything else a comment.
pub proof fn each_interaction_adds_a_line(
    interactions: Seq<Interaction>,
    x: Interaction,
    sql: Seq<String>,
)
    ensures
        rendering::plan_text(interactions.push(x), sql) == rendering::plan_text(interactions, sql)
            + match x {
            Interaction::Query(_) => sql[rendering::query_count(interactions) as int]@ + ";\n"@,
            Interaction::Assertion(assertion) => "-- "@ + ("ASSERT: "@ + assertion.message@)
                + ";\n"@,
            Interaction::Fault(fault) => "-- "@ + ("FAULT: "@ + rendering::fault_text(fault))
                + ";\n"@,
        },
        rendering::plan_text(Seq::empty(), sql).len() == 0,
{
    assert(interactions.push(x).drop_last() =~= interactions);
    reveal_strlit("");
    if let Interaction::Query(_) = x {
        let shown = sql[rendering::query_count(interactions) as int]@;
        assert(""@ + shown + ";\n"@ =~= shown + ";\n"@);
    }
}

/// The texts of queries count up with the queries.
pub proof fn queries_count_up(interactions: Seq<Interaction>, x: Interaction)
    ensures
        rendering::query_count(interactions.push(x)) == rendering::query_count(interactions) + (
        if x is Query {
            1nat
        } else {
            0
        }),
        rendering::query_count(Seq::empty()) == 0,
{
    assert(interactions.push(x).drop_last() =~= interactions);
}

/// The numbers of queries are shown each behind its word, in decimal notation.
pub proof fn counts_are_shown(stats: InteractionStats)
    ensures
        rendering::stats_text(stats) == "Read: "@ + text::decimal(stats.read_count as nat)
            + ", Write: "@ + text::decimal(stats.write_count as nat) + ", Delete: "@
            + text::decimal(stats.delete_count as nat) + ", Create: "@ + text::decimal(
            stats.create_count as nat,
        ),
{
}

} // verus!
