//! What callers can rely on: how the results of calls relate to what was given
//! and to each other.

use vstd::prelude::*;
use vstd::string::*;

use crate::error::LimboError;
use crate::simulator::cli::SimulatorCLI;
use crate::simulator::env;
use crate::simulator::env::SimulatorEnv;
use crate::simulator::execution;
use crate::simulator::execution::{QueryEvent, QueryRun, QueryStep};
use crate::simulator::execution_laws;
use crate::simulator::generation;
use crate::simulator::generation::{
    assemble_row, create_table, property_double_create_failure, property_insert_select,
    random_fault, random_read, random_write, PlanBuilder,
};
use crate::simulator::generation_laws;
use crate::simulator::laws;
use crate::simulator::model;
use crate::simulator::model::{
    clone_row, clone_rows, eq_rows, eq_values, Column, Create, Insert, Predicate, Query, Select,
    Table, Value,
};
use crate::simulator::model_laws;
use crate::simulator::plan;
use crate::simulator::plan::{
    Check, Fault, Interaction, InteractionPlan, InteractionStats, Interactions, ResultSet,
};
use crate::simulator::plan_laws;
use crate::simulator::rendering;
use crate::text;

verus! {

/// Values and rows are compared value by value, and copies agree with what they
/// are copies of.
pub proof fn values_and_rows_are_compared(
    a: &Value,
    b: &Value,
    r: &Vec<Value>,
    s: &Vec<Value>,
    rs: &Vec<Vec<Value>>,
    same: bool,
    same_rows: bool,
    copy: Vec<Value>,
    copies: Vec<Vec<Value>>,
)
    requires
        call_ensures(eq_values, (a, b), same),
        call_ensures(eq_rows, (r, s), same_rows),
        call_ensures(clone_row, (r,), copy),
        call_ensures(clone_rows, (rs,), copies),
    ensures
        same <==> model_laws::agree(*a, *b),
        same_rows <==> r@.len() == s@.len() && (forall|k: int|
            0 <= k < r@.len() ==> model_laws::agree(#[trigger] r@[k], s@[k])),
        copy@.len() == r@.len(),
        forall|k: int| 0 <= k < r@.len() ==> (#[trigger] copy@[k])@ == r@[k]@,
        copies@.len() == rs@.len(),
        forall|k: int|
            0 <= k < rs@.len() ==> model::row_model((#[trigger] copies@[k])@) == model::row_model(
                rs@[k]@,
            ),
{
    model_laws::same_values_agree(*a, *b);
    model_laws::same_rows_agree(r@, s@);
    let x = model::row_model(copy@);
    let y = model::row_model(r@);
    assert(x.len() == copy@.len() && y.len() == r@.len());
    assert forall|k: int| 0 <= k < r@.len() implies (#[trigger] copy@[k])@ == r@[k]@ by {
        assert(x[k] == y[k]);
    }
    let u = model::rows_model(copies@);
    let v = model::rows_model(rs@);
    assert(u.len() == copies@.len() && v.len() == rs@.len());
    assert forall|k: int| 0 <= k < rs@.len() implies model::row_model((#[trigger] copies@[k])@)
        == model::row_model(rs@[k]@) by {
        assert(u[k] == v[k]);
    }
}

/// A copy of a value, a column, a table or a creation is told as what it is a
/// copy of.
pub proof fn copies_are_the_same(
    value: &Value,
    column: &Column,
    table: &Table,
    create: &Create,
    value2: Value,
    column2: Column,
    table2: Table,
    create2: Create,
)
    requires
        call_ensures(<Value as Clone>::clone, (value,), value2),
        call_ensures(<Column as Clone>::clone, (column,), column2),
        call_ensures(<Table as Clone>::clone, (table,), table2),
        call_ensures(<Create as Clone>::clone, (create,), create2),
    ensures
        value2@ == value@,
        column2.name@ == column.name@,
        column2.column_type == column.column_type,
        table2@ == table@,
        create2.table@ == create.table@,
{
}

/// The demand for a row holds exactly if the last query returned a row that
/// agrees with it in every column, and an assertion that does not hold fails
/// with its message.
pub proof fn assertions_hold_or_fail(
    x: &Interaction,
    stack: &Vec<ResultSet>,
    check: &Check,
    last: &ResultSet,
    held: bool,
    res: Result<(), LimboError>,
)
    requires
        stack@.len() > 0,
        call_ensures(Check::holds, (check, last), held),
        call_ensures(Interaction::execute_assertion, (x, stack), res),
    ensures
        held == execution::is_met(*check, *last),
        *check matches Check::RowReturned(row) ==> (*last matches Ok(rows) ==> (held <==> exists|
            i: int,
        |
            0 <= i < rows@.len() && (#[trigger] rows@[i])@.len() == row@.len() && (forall|k: int|
                0 <= k < row@.len() ==> model_laws::agree(#[trigger] rows@[i]@[k], row@[k])))),
        *x matches Interaction::Assertion(assertion) ==> (res is Ok <==> execution::is_met(
            assertion.check,
            stack@.last(),
        )),
        *x matches Interaction::Assertion(assertion) ==> (res is Err ==> (
        res matches Err(LimboError::InternalError(m)) && m@ == assertion.message@)),
{
    if let Check::RowReturned(row) = *check {
        if let Ok(rows) = *last {
            execution_laws::a_row_is_found_only_if_it_was_returned(row, rows);
        }
    }
}

/// A query that has been sent has neither been answered nor given rows; a
/// connection is to be closed exactly if it is connected.
pub proof fn queries_and_faults_begin(
    run: QueryRun,
    x: &Interaction,
    env: &SimulatorEnv,
    i: usize,
    closing: bool,
)
    requires
        i < env.connections@.len(),
        call_ensures(QueryRun::start, (), run),
        call_ensures(Interaction::needs_closing, (x, env, i), closing),
    ensures
        !run.opened,
        !run.returned,
        run.out@.len() == 0,
        closing <==> env.connections@[i as int] is Connected,
{
}

/// A new plan is empty. The counts of a plan with one more interaction differ by
/// one exactly in the kind of query that it is.
pub proof fn counts_follow_the_plan(
    empty: InteractionPlan,
    before: &InteractionPlan,
    after: &InteractionPlan,
    x: Interaction,
    stats1: InteractionStats,
    stats2: InteractionStats,
)
    requires
        call_ensures(InteractionPlan::new, (), empty),
        after.plan@ == before.plan@.push(x),
        call_ensures(InteractionPlan::stats, (before,), stats1),
        call_ensures(InteractionPlan::stats, (after,), stats2),
    ensures
        empty.plan@.len() == 0,
        empty.stack@.len() == 0,
        empty.interaction_pointer == 0,
        stats2.read_count - stats1.read_count == if x matches Interaction::Query(
            Query::Select(_),
        ) {
            1int
        } else {
            0
        },
        stats2.write_count - stats1.write_count == if x matches Interaction::Query(
            Query::Insert(_),
        ) {
            1int
        } else {
            0
        },
        stats2.delete_count - stats1.delete_count == if x matches Interaction::Query(
            Query::Delete(_),
        ) {
            1int
        } else {
            0
        },
        stats2.create_count - stats1.create_count == if x matches Interaction::Query(
            Query::Create(_),
        ) {
            1int
        } else {
            0
        },
        before.plan@.len() == 0 ==> stats1.read_count == 0 && stats1.write_count == 0
            && stats1.delete_count == 0 && stats1.create_count == 0,
{
    assert(before.plan@ + seq![x] =~= before.plan@.push(x));
    laws::counts_add_up(before.plan@, seq![x], plan::reads());
    laws::counts_add_up(before.plan@, seq![x], plan::writes());
    laws::counts_add_up(before.plan@, seq![x], plan::deletes());
    laws::counts_add_up(before.plan@, seq![x], plan::creates());
    plan_laws::each_query_counts_as_one(x);
}

/// Interactions are shown as the laws on their texts say.
pub proof fn texts_are_shown(
    fault: &Fault,
    x: &Interaction,
    sql: &str,
    stats: &InteractionStats,
    p: &InteractionPlan,
    sqls: &Vec<String>,
    text1: String,
    text2: String,
    text3: String,
    text4: String,
)
    requires
        call_ensures(Fault::to_text, (fault,), text1),
        call_ensures(Interaction::to_text, (x, sql), text2),
        call_ensures(InteractionStats::to_text, (stats,), text3),
        call_ensures(InteractionPlan::to_text, (p, sqls), text4),
    ensures
        text1@ == "DISCONNECT"@,
        text2@ == rendering::interaction_text(*x, sql@),
        text3@ == "Read: "@ + text::decimal(stats.read_count as nat) + ", Write: "@ + text::decimal(
            stats.write_count as nat,
        ) + ", Delete: "@ + text::decimal(stats.delete_count as nat) + ", Create: "@
            + text::decimal(stats.create_count as nat),
        text4@ == rendering::plan_text(p.plan@, sqls@),
{
    plan_laws::counts_are_shown(*stats);
}

/// A row that is put together has the value in its column, and without it is
/// what was there.
pub proof fn a_value_has_its_column(
    column_index: usize,
    value: Value,
    others: Vec<Value>,
    row: Vec<Value>,
)
    requires
        column_index <= others@.len(),
        call_ensures(assemble_row, (column_index, value, others), row),
    ensures
        row@.len() == others@.len() + 1,
        row@[column_index as int] == value,
        row@.remove(column_index as int) == others@,
{
    assert(row@.remove(column_index as int) =~= others@);
}

/// What is inserted is selected by its own value in the chosen column, and
/// demanded.
pub proof fn insertions_are_selected(
    table: &Table,
    column_index: usize,
    row: Vec<Value>,
    shown: &Vec<String>,
    res: Interactions,
)
    requires
        column_index < table.columns@.len(),
        row@.len() == table.columns@.len(),
        shown@.len() == row@.len(),
        call_ensures(property_insert_select, (table, column_index, row, shown), res),
    ensures
        res.0@.len() == 3,
        res.0@[0] matches Interaction::Query(Query::Insert(insert)) && (
        res.0@[1] matches Interaction::Query(Query::Select(select)) && (
        select.predicate matches Predicate::Eq(name, value) && (
        res.0@[2] matches Interaction::Assertion(assertion) && (
        assertion.check matches Check::RowReturned(wanted) && {
            let k = column_index as int;
            &&& insert.table@ == table.name@
            &&& select.table@ == table.name@
            &&& insert.values@.len() == 1
            &&& model::row_model(insert.values@[0]@) == model::row_model(row@)
            &&& model::row_model(wanted@) == model::row_model(row@)
            &&& name@ == table.columns@[k].name@
            &&& value@ == model::row_model(insert.values@[0]@)[k]
            &&& value@ == row@[k]@
        })))),
{
    generation_laws::the_inserted_row_is_selected(
        res.0@,
        table@,
        column_index as int,
        model::row_model(row@),
        generation::texts_of(shown@),
    );
    model_laws::tables_are_told(*table, column_index as int);
    assert(model::row_model(row@)[column_index as int] == row@[column_index as int]@);
}

/// Creating a table twice and demanding that the second time is refused is of
/// one table; the other groups are single interactions.
pub proof fn other_groups(
    create: Create,
    select: Select,
    insert: Insert,
    twice: Interactions,
    once: Interactions,
    read: Interactions,
    write: Interactions,
    fault: Interactions,
)
    requires
        call_ensures(property_double_create_failure, (create,), twice),
        call_ensures(create_table, (create,), once),
        call_ensures(random_read, (select,), read),
        call_ensures(random_write, (insert,), write),
        call_ensures(random_fault, (), fault),
    ensures
        twice.0@.len() == 3,
        twice.0@[0] matches Interaction::Query(Query::Create(c)) && c.table@ == create.table@,
        twice.0@[1] matches Interaction::Query(Query::Create(c)) && c.table@ == create.table@,
        twice.0@[2] matches Interaction::Assertion(a) && (a.check matches Check::TableExists(name)
            && name@ == create.table.name@) && a.message@
            == "creating two tables with the name should result in a failure for the second query"@,
        once.0@.len() == 1 && once.0@[0] == Interaction::Query(Query::Create(create)),
        read.0@.len() == 1 && read.0@[0] == Interaction::Query(Query::Select(select)),
        write.0@.len() == 1 && write.0@[0] == Interaction::Query(Query::Insert(insert)),
        fault.0@.len() == 1 && fault.0@[0] == Interaction::Fault(Fault::Disconnect),
{
}

/// A plan begins with the creation of a table, which is all that its shadow
/// holds, and needs more until it is as long as the environment says.
pub proof fn plans_begin(
    env: &SimulatorEnv,
    seed: u64,
    create: Create,
    scratch: SimulatorEnv,
    builder: PlanBuilder,
    more: bool,
    xs: &Interactions,
    can: bool,
)
    requires
        call_ensures(SimulatorEnv::for_planning, (env, seed), scratch),
        call_ensures(PlanBuilder::begin, (env, seed, create), builder),
        call_ensures(PlanBuilder::needs_more, (&builder,), more),
        call_ensures(Interactions::can_be_shadowed, (xs, env), can),
    ensures
        scratch.tables@.len() == 0,
        scratch.connections@.len() == 0,
        scratch.max_interactions == env.max_interactions,
        scratch.rng_seed@ == env::expanded_seed(seed),
        builder.plan.plan@.len() == 1,
        builder.plan.plan@[0] == Interaction::Query(Query::Create(create)),
        builder.env.shadow_tables().len() == 1,
        builder.env.shadow_tables()[0] == create.table@,
        builder.env.max_interactions == env.max_interactions,
        builder.env.connections@.len() == 0,
        builder.env.rng_seed@ == env::expanded_seed(seed),
        builder.plan.stack@.len() == 0,
        builder.plan.interaction_pointer == 0,
        more <==> 1 < env.max_interactions,
        can <==> plan::after_interactions(env.shadow_tables(), xs.0@) is Some,
{
}

/// An empty command line leaves the seed and the output directory open, checks
/// once, and allows 10000 to 20000 interactions and an hour.
pub proof fn an_empty_command_line(cli: SimulatorCLI)
    requires
        call_ensures(<SimulatorCLI as Default>::default, (), cli),
    ensures
        cli.seed is None,
        cli.output_dir is None,
        !cli.doublecheck,
        cli.maximum_size == 20000,
        cli.minimum_size == 10000,
        cli.maximum_time == 3600,
{
}

/// An interaction that is pushed is the last of its plan, after all others.
pub proof fn interactions_are_pushed()
    ensures
        forall|p: &mut InteractionPlan, x: Interaction|
            #[trigger]
            call_ensures(InteractionPlan::push, (p, x), ()) ==> {
                &&& final(p).plan@.len() == p.plan@.len() + 1
                &&& final(p).plan@.last() == x
                &&& final(p).plan@.drop_last() == p.plan@
                &&& final(p).stack == p.stack
                &&& final(p).interaction_pointer == p.interaction_pointer
            },
{
    assert forall|p: &mut InteractionPlan, x: Interaction|
        #[trigger]
        call_ensures(InteractionPlan::push, (p, x), ()) implies final(p).plan@.drop_last()
        == p.plan@ by {
        assert(final(p).plan@.drop_last() =~= p.plan@);
    }
}

/// The shadow becomes what the interactions make of it, and nothing else of the
/// environment changes.
pub proof fn interactions_are_shadowed()
    ensures
        forall|xs: &Interactions, env: &mut SimulatorEnv|
            #[trigger]
            call_ensures(Interactions::shadow, (xs, env), ()) ==> {
                &&& Some(final(env).shadow_tables()) == plan::after_interactions(
                    env.shadow_tables(),
                    xs.0@,
                )
                &&& final(env).connections == env.connections
                &&& final(env).max_interactions == env.max_interactions
                &&& final(env).rng_seed == env.rng_seed
            },
{
}

/// A row is kept, an end or a failure to read returns what was kept, a refusal is
/// returned, and anything else goes on.
pub proof fn queries_are_carried_out()
    ensures
        forall|x: &Interaction, run: &mut QueryRun, event: QueryEvent, step: QueryStep|
            #[trigger]
            call_ensures(Interaction::execute_query, (x, run, event), step) ==> {
                &&& final(run).opened
                &&& final(run).returned <==> step is Return
                &&& event matches QueryEvent::Row(row) ==> step is Next && final(run).out@
                    == run.out@.push(row)
                &&& event is Done || event is Failed ==> (step matches QueryStep::Return(Ok(rows))
                    && rows@ == run.out@)
                &&& event matches QueryEvent::Refused(e) ==> step == QueryStep::Return(Err(e))
                &&& event is Opened || event is IO || event is Interrupt || event is Busy
                    ==> step is Next && final(run).out@ == run.out@
            },
{
}

/// A connected connection is disconnected if closing it succeeds, and otherwise
/// the failure is returned; to disconnect one that is not connected fails; no
/// other connection changes, nor anything else.
pub proof fn connections_are_disconnected()
    ensures
        forall|
            x: &Interaction,
            env: &mut SimulatorEnv,
            i: usize,
            closed: Result<(), LimboError>,
            res: Result<(), LimboError>,
        |
            #[trigger]
            call_ensures(Interaction::execute_fault, (x, env, i, closed), res) && i
                < env.connections@.len() ==> {
                let before = env.connections@;
                let after = final(env).connections@;
                &&& before[i as int] is Connected ==> res == closed
                &&& before[i as int] is Disconnected ==> (
                res matches Err(LimboError::InternalError(m)) && m@
                    == "Tried to disconnect a disconnected connection"@)
                &&& after.len() == before.len()
                &&& after[i as int] is Disconnected <==> res is Ok || before[i as int]
                    is Disconnected
                &&& forall|j: int|
                    0 <= j < before.len() && j != i ==> #[trigger] after[j] == before[j]
                &&& final(env).tables == env.tables
                &&& final(env).max_interactions == env.max_interactions
                &&& final(env).rng_seed == env.rng_seed
            },
{
}

/// Interactions that are added come after all others of the plan, and the shadow
/// follows.
pub proof fn interactions_are_added()
    ensures
        forall|builder: &mut PlanBuilder, xs: Interactions|
            #[trigger]
            call_ensures(PlanBuilder::add_interactions, (builder, xs), ()) ==> {
                &&& final(builder).wf()
                &&& final(builder).plan.plan@ == builder.plan.plan@ + xs.0@
                &&& final(builder).plan.stack == builder.plan.stack
                &&& final(builder).plan.interaction_pointer == builder.plan.interaction_pointer
                &&& Some(final(builder).env.shadow_tables()) == plan::after_interactions(
                    builder.env.shadow_tables(),
                    xs.0@,
                )
                &&& final(builder).env.max_interactions == builder.env.max_interactions
                &&& final(builder).env.connections == builder.env.connections
                &&& final(builder).env.rng_seed == builder.env.rng_seed
            },
{
}

} // verus!
