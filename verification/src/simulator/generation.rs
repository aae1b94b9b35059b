//! Making plans.
//!
//! What is drawn at random (tables, columns, values, queries) comes from
//! outside; what is made of it is decided here.

use vstd::prelude::*;
use vstd::string::*;

use crate::simulator::env;
use crate::simulator::env::SimulatorEnv;
use crate::simulator::laws;
use crate::simulator::model;
use crate::simulator::model::{
    Create, Insert, Predicate, Query, Select, Table, TableModel, Value, ValueModel,
};
use crate::simulator::plan;
use crate::simulator::plan::{Assertion, Check, Fault, Interaction, InteractionPlan, Interactions};

verus! {

/// What `{:?}` makes of a list of strings.
pub uninterp spec fn debug_text(texts: Seq<Seq<char>>) -> Seq<char>;

/// The texts of some strings.
pub open spec fn texts_of(strings: Seq<String>) -> Seq<Seq<char>> {
    strings.map_values(|s: String| s@)
}

/// `format!` with `{:?}` of a list of strings, which shows each of them quoted
/// and escaped.
#[verifier::external_body]
fn debug_strings(strings: &Vec<String>) -> (res: String)
    ensures
        res@ == debug_text(texts_of(strings@)),
{
    format!("{:?}", strings)
}

/// The row of a value for one column, and of the values for the other columns
/// in order.
pub fn assemble_row(column_index: usize, value: Value, others: Vec<Value>) -> (res: Vec<Value>)
    requires
        column_index <= others@.len(),
    ensures
        res@ == others@.insert(column_index as int, value),
{
    let mut row = others;
    row.insert(column_index, value);
    row
}

/// What is said where a row that was inserted is not found again. `shown`
/// holds the values of the row as text.
pub open spec fn not_found_message(
    table: Seq<char>,
    column: Seq<char>,
    shown: Seq<Seq<char>>,
    column_index: int,
) -> Seq<char> {
    "row ["@ + debug_text(shown) + "] not found in table "@ + table + " after inserting ("@ + column
        + " = "@ + shown[column_index] + ")"@
}

/// The interactions that insert a row, select it by the value of one column,
/// and demand that it is found.
pub open spec fn is_insert_select(
    interactions: Seq<Interaction>,
    table: TableModel,
    column_index: int,
    row: Seq<ValueModel>,
    shown: Seq<Seq<char>>,
) -> bool {
    &&& interactions.len() == 3
    &&& interactions[0] matches Interaction::Query(Query::Insert(insert)) && {
        &&& insert.table@ == table.name
        &&& model::rows_model(insert.values@) == seq![row]
    }
    &&& interactions[1] matches Interaction::Query(Query::Select(select)) && {
        &&& select.table@ == table.name
        &&& select.predicate matches Predicate::Eq(name, value) && {
            &&& name@ == table.columns[column_index].name
            &&& value@ == row[column_index]
        }
    }
    &&& interactions[2] matches Interaction::Assertion(assertion) && {
        &&& assertion.check matches Check::RowReturned(wanted) && model::row_model(wanted@) == row
        &&& assertion.message@ == not_found_message(
            table.name,
            table.columns[column_index].name,
            shown,
            column_index,
        )
    }
}

/// Inserts a row into a table, selects it by the value of one column, and
/// demands that it is found. `shown` holds the values of the row as text.
pub fn property_insert_select(
    table: &Table,
    column_index: usize,
    row: Vec<Value>,
    shown: &Vec<String>,
) -> (res: Interactions)
    requires
        column_index < table.columns@.len(),
        row@.len() == table.columns@.len(),
        shown@.len() == row@.len(),
    ensures
        is_insert_select(
            res.0@,
            table@,
            column_index as int,
            model::row_model(row@),
            texts_of(shown@),
        ),
{
    let ghost wanted = model::row_model(row@);
    let column = &table.columns[column_index];
    let mut message = "row [".to_owned();
    message.append(&debug_strings(shown));
    message.append("] not found in table ");
    message.append(&table.name);
    message.append(" after inserting (");
    message.append(&column.name);
    message.append(" = ");
    message.append(&shown[column_index]);
    message.append(")");

    let mut values: Vec<Vec<Value>> = Vec::new();
    values.push(model::clone_row(&row));
    let insert = Insert { table: table.name.clone(), values };
    let select = Select {
        table: table.name.clone(),
        predicate: Predicate::Eq(column.name.clone(), row[column_index].clone()),
    };
    let assertion = Assertion { check: Check::RowReturned(row), message };
    proof {
        assert(model::rows_model(insert.values@) =~= seq![wanted]);
    }

    let mut interactions: Vec<Interaction> = Vec::new();
    interactions.push(Interaction::Query(Query::Insert(insert)));
    interactions.push(Interaction::Query(Query::Select(select)));
    interactions.push(Interaction::Assertion(assertion));
    Interactions(interactions)
}

/// The interaction creates a table.
pub open spec fn is_creation(interaction: Interaction, table: TableModel) -> bool {
    interaction matches Interaction::Query(Query::Create(create)) && create.table@ == table
}

/// Creates a table twice, and demands that the second time is refused.
pub fn property_double_create_failure(create_query: Create) -> (res: Interactions)
    ensures
        res.0@.len() == 3,
        is_creation(res.0@[0], create_query.table@),
        is_creation(res.0@[1], create_query.table@),
        res.0@[2] matches Interaction::Assertion(assertion) && {
            &&& assertion.check matches Check::TableExists(name) && name@
                == create_query.table.name@
            &&& assertion.message@
                == "creating two tables with the name should result in a failure for the second query"@
        },
{
    let table_name = create_query.table.name.clone();
    let again = create_query.clone();
    let mut interactions: Vec<Interaction> = Vec::new();
    interactions.push(Interaction::Query(Query::Create(create_query)));
    interactions.push(Interaction::Query(Query::Create(again)));
    interactions.push(
        Interaction::Assertion(
            Assertion {
                check: Check::TableExists(table_name),
                message:
                    "creating two tables with the name should result in a failure for the second query".to_owned(),
            },
        ),
    );
    Interactions(interactions)
}

/// Creates a table.
pub fn create_table(create: Create) -> (res: Interactions)
    ensures
        res.0@ == seq![Interaction::Query(Query::Create(create))],
{
    let mut interactions: Vec<Interaction> = Vec::new();
    interactions.push(Interaction::Query(Query::Create(create)));
    Interactions(interactions)
}

/// Reads.
pub fn random_read(select: Select) -> (res: Interactions)
    ensures
        res.0@ == seq![Interaction::Query(Query::Select(select))],
{
    let mut interactions: Vec<Interaction> = Vec::new();
    interactions.push(Interaction::Query(Query::Select(select)));
    Interactions(interactions)
}

/// Writes.
pub fn random_write(insert: Insert) -> (res: Interactions)
    ensures
        res.0@ == seq![Interaction::Query(Query::Insert(insert))],
{
    let mut interactions: Vec<Interaction> = Vec::new();
    interactions.push(Interaction::Query(Query::Insert(insert)));
    Interactions(interactions)
}

/// Disconnects.
pub fn random_fault() -> (res: Interactions)
    ensures
        res.0@ == seq![Interaction::Fault(Fault::Disconnect)],
{
    let mut interactions: Vec<Interaction> = Vec::new();
    interactions.push(Interaction::Fault(Fault::Disconnect));
    Interactions(interactions)
}

/// A plan in the making, with a shadow of the tables that it leaves behind.
#[derive(Debug)]
pub struct PlanBuilder {
    pub plan: InteractionPlan,
    pub env: SimulatorEnv,
}

impl PlanBuilder {
    /// The plan begins with the creation of a table, and the shadow is what the
    /// plan leaves behind of an empty database.
    pub open spec fn wf(self) -> bool {
        &&& self.plan.plan@.len() > 0
        &&& self.plan.plan@[0] matches Interaction::Query(Query::Create(_))
        &&& plan::after_interactions(Seq::empty(), self.plan.plan@) == Some(
            self.env.shadow_tables(),
        )
    }

    /// Begins a plan with the creation of a table.
    pub fn begin(env: &SimulatorEnv, seed: u64, create_query: Create) -> (res: Self)
        ensures
            res.wf(),
            res.plan.plan@ == seq![Interaction::Query(Query::Create(create_query))],
            res.plan.stack@.len() == 0,
            res.plan.interaction_pointer == 0,
            res.env.max_interactions == env.max_interactions,
            res.env.shadow_tables() == seq![create_query.table@],
            res.env.connections@.len() == 0,
            res.env.rng_seed@ == env::expanded_seed(seed),
    {
        let mut plan = InteractionPlan::new();
        let mut scratch = env.for_planning(seed);
        scratch.tables.push(create_query.table.clone());
        plan.push(Interaction::Query(Query::Create(create_query)));
        proof {
            let none = Seq::<TableModel>::empty();
            assert(scratch.shadow_tables() =~= seq![create_query.table@]);
            assert(plan.plan@ =~= seq![Interaction::Query(Query::Create(create_query))]);
            assert(plan.plan@.drop_last() =~= Seq::empty());
            assert(plan::after_interactions(none, plan.plan@.drop_last()) == Some(none));
            assert(none.push(create_query.table@) =~= scratch.shadow_tables());
        }
        PlanBuilder { plan, env: scratch }
    }

    /// Tells whether the plan still has fewer interactions than it should have.
    pub fn needs_more(&self) -> (res: bool)
        ensures
            res == (self.plan.plan@.len() < self.env.max_interactions),
    {
        self.plan.plan.len() < self.env.max_interactions
    }

    /// Puts some interactions at the end of the plan.
    pub fn add_interactions(&mut self, interactions: Interactions)
        requires
            old(self).wf(),
            plan::after_interactions(old(self).env.shadow_tables(), interactions.0@) is Some,
        ensures
            final(self).wf(),
            final(self).plan.plan@ == old(self).plan.plan@ + interactions.0@,
            final(self).plan.stack == old(self).plan.stack,
            final(self).plan.interaction_pointer == old(self).plan.interaction_pointer,
            Some(final(self).env.shadow_tables()) == plan::after_interactions(
                old(self).env.shadow_tables(),
                interactions.0@,
            ),
            final(self).env.max_interactions == old(self).env.max_interactions,
            final(self).env.connections == old(self).env.connections,
            final(self).env.rng_seed == old(self).env.rng_seed,
    {
        proof {
            laws::shadows_add_up(Seq::empty(), self.plan.plan@, interactions.0@);
        }
        interactions.shadow(&mut self.env);
        let mut more = interactions.0;
        self.plan.plan.append(&mut more);
    }
}

} // verus!
